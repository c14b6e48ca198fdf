//! The messages of the synthesis protocol, and how frames are read as messages.
//!
//! A text frame is a header block, an empty line and a body. A binary frame
//! is a two-byte big-endian length, a header block of that length, and the
//! payload. In both the `Path` header tells what the message is.

use vstd::prelude::*;
use vstd::string::StringSliceAdditionalSpecFns;
use vstd::utf8::{decode_utf8, encode_utf8, encode_utf8_decode_utf8};
use crate::headers::{
    first_value, header_value, is_line, join_lines, lemma_lookup_in_lines,
    lemma_terminator_after_lines, lookup, terminator,
};
use crate::scan::{bytes_eq, find, first_match, lemma_first_match_is_least, CR, LF};
use crate::utf8::{
    lemma_ascii_byte_starts_char, lemma_ascii_encoding, lemma_char_starts_after_ascii_byte,
    lemma_text_bytes_valid,
};

verus! {

/// Why a frame is not a message.
#[derive(Clone, Copy, Debug, PartialEq, Eq, Structural)]
pub enum DecodeError {
    /// A text frame has no empty line after its headers.
    MissingTerminator,
    /// A binary frame is shorter than its length prefix and the header block
    /// that the prefix declares.
    HeaderOverrun,
    /// The header block has no `Path` header.
    MissingPath,
}

/// The code and the reason that came with a close frame.
#[derive(Clone, Debug)]
pub struct CloseFrame {
    pub code: u16,
    pub reason: String,
}

/// A close frame's contents as mathematical values.
pub struct CloseFrameView {
    pub code: u16,
    pub reason: Seq<char>,
}

impl View for CloseFrame {
    type V = CloseFrameView;

    open spec fn view(&self) -> CloseFrameView {
        CloseFrameView { code: self.code, reason: self.reason@ }
    }
}

/// One frame as the transport delivers it.
#[derive(Clone, Debug)]
pub enum Frame {
    Text(String),
    Binary(Vec<u8>),
    Close(Option<CloseFrame>),
    Ping(Vec<u8>),
    Pong(Vec<u8>),
    /// A frame that the transport handed over unparsed.
    Raw,
}

/// A frame's contents as mathematical values.
pub enum FrameView {
    Text(Seq<char>),
    Binary(Seq<u8>),
    Close(Option<CloseFrameView>),
    Ping(Seq<u8>),
    Pong(Seq<u8>),
    Raw,
}

impl View for Frame {
    type V = FrameView;

    open spec fn view(&self) -> FrameView {
        match self {
            Frame::Text(text) => FrameView::Text(text@),
            Frame::Binary(data) => FrameView::Binary(data@),
            Frame::Close(Some(close)) => FrameView::Close(Some(close@)),
            Frame::Close(None) => FrameView::Close(None),
            Frame::Ping(data) => FrameView::Ping(data@),
            Frame::Pong(data) => FrameView::Pong(data@),
            Frame::Raw => FrameView::Raw,
        }
    }
}

/// A message of the protocol, borrowing from the frame it was read from.
#[derive(Clone, Copy, Debug)]
pub enum WebSocketMessage<'a> {
    TurnStart,
    Response { body: &'a str },
    Audio { data: &'a [u8] },
    AudioMetadata { body: &'a str },
    TurnEnd,
    Close(Option<&'a CloseFrame>),
    /// Any message of a kind that this client does not know.
    Unrecognized,
}

/// A message as mathematical values.
pub enum MessageView {
    TurnStart,
    Response { body: Seq<char> },
    Audio { data: Seq<u8> },
    AudioMetadata { body: Seq<char> },
    TurnEnd,
    Close(Option<CloseFrameView>),
    Unrecognized,
}

impl<'a> View for WebSocketMessage<'a> {
    type V = MessageView;

    open spec fn view(&self) -> MessageView {
        match self {
            WebSocketMessage::TurnStart => MessageView::TurnStart,
            WebSocketMessage::Response { body } => MessageView::Response { body: body@ },
            WebSocketMessage::Audio { data } => MessageView::Audio { data: data@ },
            WebSocketMessage::AudioMetadata { body } => MessageView::AudioMetadata { body: body@ },
            WebSocketMessage::TurnEnd => MessageView::TurnEnd,
            WebSocketMessage::Close(Some(close)) => MessageView::Close(Some(close@)),
            WebSocketMessage::Close(None) => MessageView::Close(None),
            WebSocketMessage::Unrecognized => MessageView::Unrecognized,
        }
    }
}

/// The key of the header that tells a message's kind.
pub open spec fn path_key() -> Seq<u8> {
    "Path".spec_bytes()
}

/// The message that a text frame with the given `Path` and body is.
pub open spec fn text_kind(path: Seq<u8>, body: Seq<u8>) -> MessageView {
    if path == "turn.start".spec_bytes() {
        MessageView::TurnStart
    } else if path == "response".spec_bytes() {
        MessageView::Response { body: decode_utf8(body) }
    } else if path == "turn.end".spec_bytes() {
        MessageView::TurnEnd
    } else if path == "audio.metadata".spec_bytes() {
        MessageView::AudioMetadata { body: decode_utf8(body) }
    } else {
        MessageView::Unrecognized
    }
}

/// The message that a binary frame with the given `Path` and payload is.
pub open spec fn binary_kind(path: Seq<u8>, payload: Seq<u8>) -> MessageView {
    if path == "audio".spec_bytes() {
        MessageView::Audio { data: payload }
    } else {
        MessageView::Unrecognized
    }
}

/// Each path names its own kind of message: of the four that a text frame can
/// have no two are the same, so each is read as the message it names.
pub proof fn lemma_kinds_by_path(body: Seq<u8>)
    ensures
        text_kind("turn.start".spec_bytes(), body) == MessageView::TurnStart,
        text_kind("response".spec_bytes(), body) == (MessageView::Response {
            body: decode_utf8(body),
        }),
        text_kind("turn.end".spec_bytes(), body) == MessageView::TurnEnd,
        text_kind("audio.metadata".spec_bytes(), body) == (MessageView::AudioMetadata {
            body: decode_utf8(body),
        }),
        binary_kind("audio".spec_bytes(), body) == (MessageView::Audio { data: body }),
{
    reveal_strlit("turn.start");
    reveal_strlit("response");
    reveal_strlit("turn.end");
    reveal_strlit("audio.metadata");
    lemma_ascii_encoding("turn.start"@);
    lemma_ascii_encoding("response"@);
    lemma_ascii_encoding("turn.end"@);
    lemma_ascii_encoding("audio.metadata"@);
    assert("turn.start".spec_bytes().len() == 10);
    assert("response".spec_bytes().len() == 8);
    assert("turn.end".spec_bytes().len() == 8);
    assert("audio.metadata".spec_bytes().len() == 14);
    assert("response".spec_bytes()[0] == 'r' as u8);
    assert("turn.end".spec_bytes()[0] == 't' as u8);
}

/// The value of a header of a text frame, given as its bytes: what its header
/// block, which ends at the first empty line, holds under the key.
pub open spec fn text_header(frame: Seq<u8>, key: Seq<u8>) -> Option<Seq<u8>> {
    match first_match(frame, terminator()) {
        None => None,
        Some(i) => header_value(frame.subrange(0, i), key),
    }
}

/// How a text frame, given as its bytes, reads as a message.
///
/// The header block ends at the first empty line; the body is all that
/// follows it.
pub open spec fn text_message(frame: Seq<u8>) -> Result<MessageView, DecodeError> {
    match first_match(frame, terminator()) {
        None => Err(DecodeError::MissingTerminator),
        Some(i) => match header_value(frame.subrange(0, i), path_key()) {
            None => Err(DecodeError::MissingPath),
            Some(path) => Ok(text_kind(path, frame.subrange(i + 4, frame.len() as int))),
        },
    }
}

/// A text frame made of header lines, an empty line and a body is the message
/// that the first of its `Path` headers names, with all of the body; without
/// such a header it is no message.
pub proof fn lemma_text_frame_of_lines(lines: Seq<Seq<u8>>, body: Seq<u8>)
    requires
        lines.len() > 0,
        forall|i: int| 0 <= i < lines.len() ==> is_line(#[trigger] lines[i]),
    ensures
        text_message(join_lines(lines) + terminator() + body) == match first_value(
            lines,
            path_key(),
        ) {
            Some(path) => Ok::<MessageView, DecodeError>(text_kind(path, body)),
            None => Err::<MessageView, DecodeError>(DecodeError::MissingPath),
        },
{
    let block = join_lines(lines);
    let frame = block + terminator() + body;
    lemma_terminator_after_lines(lines, body);
    lemma_lookup_in_lines(lines, path_key());
    assert(frame.subrange(0, block.len() as int) =~= block);
    assert(frame.subrange(block.len() as int + 4, frame.len() as int) =~= body);
}

/// The header length that a binary frame of at least two bytes declares.
pub open spec fn declared_header_len(frame: Seq<u8>) -> int {
    frame[0] * 256 + frame[1]
}

/// How a binary frame reads as a message.
pub open spec fn binary_message(frame: Seq<u8>) -> Result<MessageView, DecodeError> {
    if frame.len() < 2 || 2 + declared_header_len(frame) > frame.len() {
        Err(DecodeError::HeaderOverrun)
    } else {
        let end = 2 + declared_header_len(frame);
        match header_value(frame.subrange(2, end), path_key()) {
            None => Err(DecodeError::MissingPath),
            Some(path) => Ok(binary_kind(path, frame.subrange(end, frame.len() as int))),
        }
    }
}

/// A binary frame made of the length of its header block, header lines and a
/// payload is the message that the first of its `Path` headers names, with
/// all of the payload; without such a header it is no message.
pub proof fn lemma_binary_frame_of_lines(lines: Seq<Seq<u8>>, payload: Seq<u8>)
    requires
        forall|i: int| 0 <= i < lines.len() ==> is_line(#[trigger] lines[i]),
        join_lines(lines).len() < 0x1_0000,
    ensures
        ({
            let block = join_lines(lines);
            let prefix = seq![(block.len() / 256) as u8, (block.len() % 256) as u8];
            binary_message(prefix + block + payload) == match first_value(lines, path_key()) {
                Some(path) => Ok::<MessageView, DecodeError>(binary_kind(path, payload)),
                None => Err::<MessageView, DecodeError>(DecodeError::MissingPath),
            }
        }),
{
    let block = join_lines(lines);
    let prefix = seq![(block.len() / 256) as u8, (block.len() % 256) as u8];
    let frame = prefix + block + payload;
    lemma_lookup_in_lines(lines, path_key());
    assert(declared_header_len(frame) == block.len());
    assert(frame.subrange(2, 2 + block.len() as int) =~= block);
    assert(frame.subrange(2 + block.len() as int, frame.len() as int) =~= payload);
}

/// How a frame reads as a message.
pub open spec fn message_of(frame: FrameView) -> Result<MessageView, DecodeError> {
    match frame {
        FrameView::Text(text) => text_message(encode_utf8(text)),
        FrameView::Binary(data) => binary_message(data),
        FrameView::Close(close) => Ok(MessageView::Close(close)),
        FrameView::Ping(_) => Ok(MessageView::Unrecognized),
        FrameView::Pong(_) => Ok(MessageView::Unrecognized),
        FrameView::Raw => Ok(MessageView::Unrecognized),
    }
}

/// What a decoding returned, as mathematical values.
pub open spec fn decoded(r: Result<WebSocketMessage<'_>, DecodeError>) -> Result<
    MessageView,
    DecodeError,
> {
    match r {
        Ok(message) => Ok(message@),
        Err(e) => Err(e),
    }
}

/// Reads one header of a text frame.
pub fn header_of_text<'a>(text: &'a str, key: &str) -> (r: Option<&'a [u8]>)
    ensures
        match r {
            Some(value) => text_header(text.spec_bytes(), key.spec_bytes()) == Some(value@),
            None => text_header(text.spec_bytes(), key.spec_bytes()) is None,
        },
{
    let bytes = text.as_bytes();
    let term = [CR, LF, CR, LF];
    assert(term@ =~= terminator());
    match find(bytes, term.as_slice()) {
        None => None,
        Some(i) => {
            proof {
                lemma_first_match_is_least(bytes@, term@, 0);
            }
            lookup(&bytes[0..i], key.as_bytes())
        },
    }
}

/// Reads a text frame.
pub fn decode_text<'a>(text: &'a str) -> (r: Result<WebSocketMessage<'a>, DecodeError>)
    ensures
        decoded(r) == text_message(text.spec_bytes()),
{
    let bytes = text.as_bytes();
    let n = bytes.len();
    let term = [CR, LF, CR, LF];
    assert(term@ =~= terminator());
    match find(bytes, term.as_slice()) {
        None => Err(DecodeError::MissingTerminator),
        Some(i) => {
            proof {
                lemma_first_match_is_least(bytes@, term@, 0);
                assert(i + 4 <= n);
                assert(bytes@.subrange(i as int, i + 4)[0] == bytes@[i as int]);
                assert(bytes@.subrange(i as int, i + 4)[3] == bytes@[i + 3]);
                lemma_text_bytes_valid(text@);
                lemma_ascii_byte_starts_char(bytes@, i as int);
                lemma_char_starts_after_ascii_byte(bytes@, i + 3);
            }
            let head = text.split_at(i).0;
            let body = text.split_at(i + 4).1;
            proof {
                encode_utf8_decode_utf8(body@);
            }
            match lookup(head.as_bytes(), "Path".as_bytes()) {
                None => Err(DecodeError::MissingPath),
                Some(path) => {
                    if bytes_eq(path, "turn.start".as_bytes()) {
                        Ok(WebSocketMessage::TurnStart)
                    } else if bytes_eq(path, "response".as_bytes()) {
                        Ok(WebSocketMessage::Response { body })
                    } else if bytes_eq(path, "turn.end".as_bytes()) {
                        Ok(WebSocketMessage::TurnEnd)
                    } else if bytes_eq(path, "audio.metadata".as_bytes()) {
                        Ok(WebSocketMessage::AudioMetadata { body })
                    } else {
                        Ok(WebSocketMessage::Unrecognized)
                    }
                },
            }
        },
    }
}

/// Reads a binary frame.
pub fn decode_binary<'a>(frame: &'a [u8]) -> (r: Result<WebSocketMessage<'a>, DecodeError>)
    ensures
        decoded(r) == binary_message(frame@),
        r == Err::<WebSocketMessage<'a>, DecodeError>(DecodeError::HeaderOverrun) <==> frame@.len() < 2
            || 2 + declared_header_len(frame@) > frame@.len(),
{
    let n = frame.len();
    if n < 2 {
        return Err(DecodeError::HeaderOverrun);
    }
    let declared: usize = (frame[0] as usize) * 256 + (frame[1] as usize);
    if declared > n - 2 {
        return Err(DecodeError::HeaderOverrun);
    }
    let end: usize = 2 + declared;
    match lookup(&frame[2..end], "Path".as_bytes()) {
        None => Err(DecodeError::MissingPath),
        Some(path) => {
            if bytes_eq(path, "audio".as_bytes()) {
                Ok(WebSocketMessage::Audio { data: &frame[end..n] })
            } else {
                Ok(WebSocketMessage::Unrecognized)
            }
        },
    }
}

/// Reads a frame as a message of the protocol.
pub fn decode<'a>(frame: &'a Frame) -> (r: Result<WebSocketMessage<'a>, DecodeError>)
    ensures
        decoded(r) == message_of(frame@),
{
    match frame {
        Frame::Text(text) => decode_text(text.as_str()),
        Frame::Binary(data) => decode_binary(data.as_slice()),
        Frame::Close(Some(close)) => Ok(WebSocketMessage::Close(Some(close))),
        Frame::Close(None) => Ok(WebSocketMessage::Close(None)),
        Frame::Ping(_) => Ok(WebSocketMessage::Unrecognized),
        Frame::Pong(_) => Ok(WebSocketMessage::Unrecognized),
        Frame::Raw => Ok(WebSocketMessage::Unrecognized),
    }
}

} // verus!
