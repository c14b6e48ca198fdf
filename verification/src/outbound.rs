//! The messages that the client sends.
//!
//! Each is one text frame: the headers `Path`, `X-RequestId`, `X-Timestamp`
//! and `Content-Type`, one to a line, an empty line, and the body.

use vstd::prelude::*;
use vstd::string::{StringExecFns, StringSliceAdditionalSpecFns};
use vstd::utf8::{encode_utf8, is_ascii_chars};
use crate::headers::{
    first_value, is_key, is_line, is_trimmed, join_lines, lemma_lookup_in_lines,
    lemma_terminator_after_lines, lemma_written_header_value, terminator, written_header,
};
use crate::msg::text_header;
use crate::scan::{COLON, CR, LF, SPACE};
use crate::stamp::{is_request_id, is_timestamp};
use crate::types::AudioFormat;
use crate::utf8::{ascii_bytes, lemma_ascii_concat, lemma_ascii_encoding, lemma_encode_concat};

verus! {

/// What the client tells the service about itself when a connection opens.
pub const CLIENT_INFO_PAYLOAD: &'static str =
    "{\"context\":{\"system\":{\"version\":\"1.25.0\",\"name\":\"SpeechSDK\",\"build\":\"Windows-x64\"},\"os\":{\"platform\":\"Windows\",\"name\":\"Client\",\"version\":\"10\"}}}";

/// One header: the key, a colon, a space and the value.
pub open spec fn header_line(key: Seq<char>, value: Seq<char>) -> Seq<char> {
    key + ": "@ + value
}

/// The header block of an outbound message.
pub open spec fn outbound_headers(
    path: Seq<char>,
    request_id: Seq<char>,
    timestamp: Seq<char>,
    content_type: Seq<char>,
) -> Seq<char> {
    header_line("Path"@, path) + "\r\n"@ + header_line("X-RequestId"@, request_id) + "\r\n"@
        + header_line("X-Timestamp"@, timestamp) + "\r\n"@ + header_line(
        "Content-Type"@,
        content_type,
    )
}

/// The text of an outbound message.
pub open spec fn outbound_text(
    path: Seq<char>,
    request_id: Seq<char>,
    timestamp: Seq<char>,
    content_type: Seq<char>,
    body: Seq<char>,
) -> Seq<char> {
    outbound_headers(path, request_id, timestamp, content_type) + "\r\n\r\n"@ + body
}

/// The body of the message that asks for a format: the metadata options are
/// fixed, with word boundaries switched on.
pub open spec fn synthesis_context(format: AudioFormat) -> Seq<char> {
    "{\"synthesis\":{\"audio\":{\"metadataOptions\":{\"sentenceBoundaryEnabled\":false,\"wordBoundaryEnabled\":true,\"sessionEndEnabled\":false},\"outputFormat\":\""@
        + format.name() + "\"}}}"@
}

/// The first message on a connection.
pub open spec fn speech_config_text(request_id: Seq<char>, timestamp: Seq<char>) -> Seq<char> {
    outbound_text(
        "speech.config"@,
        request_id,
        timestamp,
        "application/json"@,
        CLIENT_INFO_PAYLOAD@,
    )
}

/// The message that opens a turn by naming the audio format.
pub open spec fn synthesis_context_text(
    request_id: Seq<char>,
    timestamp: Seq<char>,
    format: AudioFormat,
) -> Seq<char> {
    outbound_text(
        "synthesis.context"@,
        request_id,
        timestamp,
        "application/json"@,
        synthesis_context(format),
    )
}

/// The message that carries the document to speak.
pub open spec fn ssml_text(request_id: Seq<char>, timestamp: Seq<char>, ssml: Seq<char>) -> Seq<
    char,
> {
    outbound_text("ssml"@, request_id, timestamp, "application/ssml+xml"@, ssml)
}

/// Writes an outbound message.
pub fn encode_message(
    path: &str,
    request_id: &str,
    timestamp: &str,
    content_type: &str,
    body: &str,
) -> (r: String)
    ensures
        r@ == outbound_text(path@, request_id@, timestamp@, content_type@, body@),
{
    let mut text = String::from_str("Path");
    text.append(": ");
    text.append(path);
    text.append("\r\n");
    text.append("X-RequestId");
    text.append(": ");
    text.append(request_id);
    text.append("\r\n");
    text.append("X-Timestamp");
    text.append(": ");
    text.append(timestamp);
    text.append("\r\n");
    text.append("Content-Type");
    text.append(": ");
    text.append(content_type);
    text.append("\r\n\r\n");
    text.append(body);
    assert(text@ =~= outbound_text(path@, request_id@, timestamp@, content_type@, body@));
    text
}

/// Writes the first message on a connection.
pub fn speech_config_message(request_id: &str, timestamp: &str) -> (r: String)
    ensures
        r@ == speech_config_text(request_id@, timestamp@),
{
    encode_message("speech.config", request_id, timestamp, "application/json", CLIENT_INFO_PAYLOAD)
}

/// Writes the message that opens a turn by naming the audio format.
pub fn synthesis_context_message(request_id: &str, timestamp: &str, format: AudioFormat) -> (r:
    String)
    ensures
        r@ == synthesis_context_text(request_id@, timestamp@, format),
{
    let mut body = String::from_str(
        "{\"synthesis\":{\"audio\":{\"metadataOptions\":{\"sentenceBoundaryEnabled\":false,\"wordBoundaryEnabled\":true,\"sessionEndEnabled\":false},\"outputFormat\":\"",
    );
    body.append(format.as_str());
    body.append("\"}}}");
    encode_message("synthesis.context", request_id, timestamp, "application/json", body.as_str())
}

/// Writes the message that carries the document to speak.
pub fn ssml_message(request_id: &str, timestamp: &str, ssml: &str) -> (r: String)
    ensures
        r@ == ssml_text(request_id@, timestamp@, ssml@),
{
    encode_message("ssml", request_id, timestamp, "application/ssml+xml", ssml)
}

/// A path that an outbound message can have.
pub open spec fn is_outbound_path(path: Seq<char>) -> bool {
    path == "speech.config"@ || path == "synthesis.context"@ || path == "ssml"@
}

/// A text that can stand as the value of a header: printable ASCII, with no
/// space at either end.
pub open spec fn is_field_text(text: Seq<char>) -> bool {
    &&& forall|i: int| 0 <= i < text.len() ==> ' ' <= #[trigger] text[i] <= '~'
    &&& text.len() > 0 ==> text[0] != ' ' && text.last() != ' '
}

/// A text that can stand as the key of a header: printable ASCII without
/// spaces and colons, and not empty.
pub open spec fn is_key_text(text: Seq<char>) -> bool {
    &&& text.len() > 0
    &&& forall|i: int| 0 <= i < text.len() ==> '!' <= #[trigger] text[i] <= '~' && text[i] != ':'
}

/// The paths of outbound messages, request identifiers and timestamps can all
/// stand as the value of a header.
pub proof fn lemma_fields_of_outbound_messages(
    path: Seq<char>,
    request_id: Seq<char>,
    timestamp: Seq<char>,
)
    ensures
        is_outbound_path(path) ==> is_field_text(path),
        is_request_id(request_id) ==> is_field_text(request_id),
        is_timestamp(timestamp) ==> is_field_text(timestamp),
{
    reveal_strlit("speech.config");
    reveal_strlit("synthesis.context");
    reveal_strlit("ssml");
}

/// The bytes of a header with an ASCII key and value are the header written
/// with the bytes of the key and of the value, and make a line.
proof fn lemma_header_line_bytes(key: Seq<char>, value: Seq<char>)
    requires
        is_key_text(key),
        is_field_text(value),
    ensures
        ascii_bytes(header_line(key, value)) == written_header(
            ascii_bytes(key),
            ascii_bytes(value),
        ),
        is_line(written_header(ascii_bytes(key), ascii_bytes(value))),
        is_key(ascii_bytes(key)),
        is_trimmed(ascii_bytes(value)),
        is_ascii_chars(header_line(key, value)),
{
    reveal_strlit(": ");
    assert(ascii_bytes(": "@) =~= seq![COLON, SPACE]);
    lemma_ascii_concat(key + ": "@, value);
    lemma_ascii_concat(key, ": "@);
    let line = written_header(ascii_bytes(key), ascii_bytes(value));
    assert forall|i: int| 0 <= i < line.len() implies #[trigger] line[i] != CR && line[i]
        != LF by {
        if i < key.len() {
            assert(line[i] == key[i] as u8);
        } else if i >= key.len() + 2 {
            assert(line[i] == value[i - key.len() - 2] as u8);
        }
    }
    assert forall|i: int| 0 <= i < key.len() implies #[trigger] ascii_bytes(key)[i] != COLON by {
        assert(ascii_bytes(key)[i] == key[i] as u8);
    }
    if value.len() > 0 {
        assert(ascii_bytes(value)[0] == value[0] as u8);
        assert(ascii_bytes(value).last() == value.last() as u8);
    }
}

/// The lines of an outbound message's header block, as bytes.
pub open spec fn outbound_lines(
    path: Seq<char>,
    request_id: Seq<char>,
    timestamp: Seq<char>,
    content_type: Seq<char>,
) -> Seq<Seq<u8>> {
    seq![
        written_header(ascii_bytes("Path"@), ascii_bytes(path)),
        written_header(ascii_bytes("X-RequestId"@), ascii_bytes(request_id)),
        written_header(ascii_bytes("X-Timestamp"@), ascii_bytes(timestamp)),
        written_header(ascii_bytes("Content-Type"@), ascii_bytes(content_type)),
    ]
}

/// The keys of the headers of an outbound message are keys, and no two of the
/// first three are the same.
proof fn lemma_outbound_keys()
    ensures
        is_key_text("Path"@),
        is_key_text("X-RequestId"@),
        is_key_text("X-Timestamp"@),
        is_key_text("Content-Type"@),
        "Path".spec_bytes() == ascii_bytes("Path"@),
        "X-RequestId".spec_bytes() == ascii_bytes("X-RequestId"@),
        "X-Timestamp".spec_bytes() == ascii_bytes("X-Timestamp"@),
        ascii_bytes("Path"@) != ascii_bytes("X-RequestId"@),
        ascii_bytes("Path"@) != ascii_bytes("X-Timestamp"@),
        ascii_bytes("X-RequestId"@) != ascii_bytes("X-Timestamp"@),
{
    reveal_strlit("Path");
    reveal_strlit("X-RequestId");
    reveal_strlit("X-Timestamp");
    reveal_strlit("Content-Type");
    lemma_ascii_encoding("Path"@);
    lemma_ascii_encoding("X-RequestId"@);
    lemma_ascii_encoding("X-Timestamp"@);
    assert(ascii_bytes("Path"@).len() == 4);
    assert(ascii_bytes("X-RequestId"@).len() == 11);
    assert(ascii_bytes("X-RequestId"@)[2] == 'R' as u8);
    assert(ascii_bytes("X-Timestamp"@)[2] == 'T' as u8);
}

/// The bytes of an outbound message are the lines of its header block, an
/// empty line, and the bytes of its body.
proof fn lemma_outbound_bytes(
    path: Seq<char>,
    request_id: Seq<char>,
    timestamp: Seq<char>,
    content_type: Seq<char>,
    body: Seq<char>,
)
    requires
        is_field_text(path),
        is_field_text(request_id),
        is_field_text(timestamp),
        is_field_text(content_type),
    ensures
        encode_utf8(outbound_text(path, request_id, timestamp, content_type, body)) == join_lines(
            outbound_lines(path, request_id, timestamp, content_type),
        ) + terminator() + encode_utf8(body),
        forall|i: int|
            0 <= i < 4 ==> is_line(
                #[trigger] outbound_lines(path, request_id, timestamp, content_type)[i],
            ),
{
    lemma_outbound_keys();
    lemma_header_line_bytes("Path"@, path);
    lemma_header_line_bytes("X-RequestId"@, request_id);
    lemma_header_line_bytes("X-Timestamp"@, timestamp);
    lemma_header_line_bytes("Content-Type"@, content_type);
    reveal_strlit("\r\n");
    reveal_strlit("\r\n\r\n");
    let l1 = header_line("Path"@, path);
    let l2 = header_line("X-RequestId"@, request_id);
    let l3 = header_line("X-Timestamp"@, timestamp);
    let l4 = header_line("Content-Type"@, content_type);
    let sep = "\r\n"@;
    let end = "\r\n\r\n"@;
    let head = outbound_headers(path, request_id, timestamp, content_type) + end;
    assert(ascii_bytes(sep) =~= seq![CR, LF]);
    assert(ascii_bytes(end) =~= terminator());
    lemma_ascii_concat(l1, sep);
    lemma_ascii_concat(l1 + sep, l2);
    lemma_ascii_concat(l1 + sep + l2, sep);
    lemma_ascii_concat(l1 + sep + l2 + sep, l3);
    lemma_ascii_concat(l1 + sep + l2 + sep + l3, sep);
    lemma_ascii_concat(l1 + sep + l2 + sep + l3 + sep, l4);
    lemma_ascii_concat(l1 + sep + l2 + sep + l3 + sep + l4, end);
    let lines = outbound_lines(path, request_id, timestamp, content_type);
    let b1 = lines[0];
    let b2 = lines[1];
    let b3 = lines[2];
    let b4 = lines[3];
    let crlf = seq![CR, LF];
    assert(lines.drop_first() =~= seq![b2, b3, b4]);
    assert(lines.drop_first().drop_first() =~= seq![b3, b4]);
    assert(lines.drop_first().drop_first().drop_first() =~= seq![b4]);
    assert(join_lines(seq![b4]) == b4);
    assert(join_lines(seq![b3, b4]) == b3 + crlf + b4);
    assert(join_lines(seq![b2, b3, b4]) == b2 + crlf + (b3 + crlf + b4));
    assert(join_lines(lines) == b1 + crlf + (b2 + crlf + (b3 + crlf + b4)));
    assert(ascii_bytes(head) =~= join_lines(lines) + terminator());
    assert(is_ascii_chars(head)) by {
        assert forall|i: int| 0 <= i < head.len() implies '\0' <= #[trigger] head[i]
            <= '\u{7f}' by {
            assert(ascii_bytes(head)[i] == head[i] as u8);
            let joined = join_lines(lines) + terminator();
            if i < l1.len() {
                assert(head[i] == l1[i]);
            } else if i < l1.len() + 2 {
            } else if i < l1.len() + 2 + l2.len() {
                assert(head[i] == l2[i - l1.len() - 2]);
            } else if i < l1.len() + 2 + l2.len() + 2 {
            } else if i < l1.len() + 2 + l2.len() + 2 + l3.len() {
                assert(head[i] == l3[i - l1.len() - 2 - l2.len() - 2]);
            } else if i < l1.len() + 2 + l2.len() + 2 + l3.len() + 2 {
            } else if i < l1.len() + 2 + l2.len() + 2 + l3.len() + 2 + l4.len() {
                assert(head[i] == l4[i - l1.len() - 2 - l2.len() - 2 - l3.len() - 2]);
            } else {
            }
        }
    }
    lemma_ascii_encoding(head);
    lemma_encode_concat(head, body);
}

/// An outbound message reads back as it was written.
///
/// Take a message written with the path of an outbound message, a request
/// identifier, a timestamp and any content type that can stand in a header,
/// whatever its body. Cut the header block from its bytes as a reader does,
/// at the first empty line, and look up `Path`, `X-RequestId` and
/// `X-Timestamp`: each gives the bytes of what was written.
pub proof fn lemma_outbound_round_trip(
    path: Seq<char>,
    request_id: Seq<char>,
    timestamp: Seq<char>,
    content_type: Seq<char>,
    body: Seq<char>,
)
    requires
        is_outbound_path(path),
        is_request_id(request_id),
        is_timestamp(timestamp),
        is_field_text(content_type),
    ensures
        ({
            let frame = encode_utf8(
                outbound_text(path, request_id, timestamp, content_type, body),
            );
            &&& text_header(frame, "Path".spec_bytes()) == Some(encode_utf8(path))
            &&& text_header(frame, "X-RequestId".spec_bytes()) == Some(encode_utf8(request_id))
            &&& text_header(frame, "X-Timestamp".spec_bytes()) == Some(encode_utf8(timestamp))
        }),
{
    lemma_fields_of_outbound_messages(path, request_id, timestamp);
    lemma_outbound_bytes(path, request_id, timestamp, content_type, body);
    lemma_outbound_keys();
    lemma_ascii_encoding(path);
    lemma_ascii_encoding(request_id);
    lemma_ascii_encoding(timestamp);
    let lines = outbound_lines(path, request_id, timestamp, content_type);
    let block = join_lines(lines);
    let tail = encode_utf8(body);
    let frame = block + terminator() + tail;
    lemma_terminator_after_lines(lines, tail);
    assert(frame.subrange(0, block.len() as int) =~= block);
    let k1 = ascii_bytes("Path"@);
    let k2 = ascii_bytes("X-RequestId"@);
    let k3 = ascii_bytes("X-Timestamp"@);
    lemma_header_line_bytes("Path"@, path);
    lemma_header_line_bytes("X-RequestId"@, request_id);
    lemma_header_line_bytes("X-Timestamp"@, timestamp);
    lemma_lookup_in_lines(lines, k1);
    lemma_lookup_in_lines(lines, k2);
    lemma_lookup_in_lines(lines, k3);
    let rest1 = lines.drop_first();
    let rest2 = rest1.drop_first();
    assert(rest1[0] == lines[1]);
    assert(rest2[0] == lines[2]);
    lemma_written_header_value(k1, ascii_bytes(path), k1);
    lemma_written_header_value(k1, ascii_bytes(path), k2);
    lemma_written_header_value(k1, ascii_bytes(path), k3);
    lemma_written_header_value(k2, ascii_bytes(request_id), k2);
    lemma_written_header_value(k2, ascii_bytes(request_id), k3);
    lemma_written_header_value(k3, ascii_bytes(timestamp), k3);
    assert(first_value(lines, k1) == Some(ascii_bytes(path)));
    assert(first_value(rest1, k2) == Some(ascii_bytes(request_id)));
    assert(first_value(lines, k2) == Some(ascii_bytes(request_id)));
    assert(first_value(rest2, k3) == Some(ascii_bytes(timestamp)));
    assert(first_value(rest1, k3) == Some(ascii_bytes(timestamp)));
    assert(first_value(lines, k3) == Some(ascii_bytes(timestamp)));
}

} // verus!
