use aspeak::headers::lookup;
use aspeak::msg::{
    decode, decode_binary, decode_text, header_of_text, CloseFrame, DecodeError, Frame,
    WebSocketMessage,
};
use aspeak::outbound::{
    encode_message, speech_config_message, ssml_message, synthesis_context_message,
    CLIENT_INFO_PAYLOAD,
};
use aspeak::scan::{find, find_from, trimmed};
use aspeak::types::AudioFormat;

fn binary(headers: &[u8], payload: &[u8]) -> Vec<u8> {
    let mut frame = vec![(headers.len() / 256) as u8, (headers.len() % 256) as u8];
    frame.extend_from_slice(headers);
    frame.extend_from_slice(payload);
    frame
}

#[test]
fn find_gives_the_first_occurrence() {
    assert_eq!(find(b"abcabc", b"bc"), Some(1));
    assert_eq!(find_from(b"abcabc", b"bc", 2), Some(4));
    assert_eq!(find(b"abcabc", b"cb"), None);
    assert_eq!(find(b"ab", b"abc"), None);
    assert_eq!(find(b"", b""), Some(0));
    assert_eq!(find_from(b"ab", b"", 2), Some(2));
    assert_eq!(find_from(b"ab", b"", 3), None);
}

#[test]
fn trimming_removes_spaces_and_tabs_at_both_ends_only() {
    assert_eq!(trimmed(b" \t a b\t "), b"a b");
    assert_eq!(trimmed(b"   "), b"");
    assert_eq!(trimmed(b""), b"");
    assert_eq!(trimmed(b"\r\n x"), b"\r\n x");
}

#[test]
fn lookup_finds_a_header_wherever_it_stands() {
    let block = b"X-RequestId:1\r\nnot a header\r\nPath: turn.start \r\nPath:second";
    assert_eq!(lookup(block, b"Path"), Some(&b"turn.start"[..]));
    assert_eq!(lookup(block, b"X-RequestId"), Some(&b"1"[..]));
    assert_eq!(lookup(block, b"path"), None);
    assert_eq!(lookup(block, b"Content-Type"), None);
    assert_eq!(lookup(b"", b"Path"), None);
    assert_eq!(lookup(b"Path:a:b", b"Path"), Some(&b"a:b"[..]));
}

#[test]
fn text_frames_are_told_apart_by_their_path() {
    assert!(matches!(
        decode_text("Path:turn.start\r\n\r\n{}"),
        Ok(WebSocketMessage::TurnStart)
    ));
    assert!(matches!(
        decode_text("X-RequestId:9\r\nPath: response\r\n\r\nbody\r\n\r\nmore"),
        Ok(WebSocketMessage::Response { body: "body\r\n\r\nmore" })
    ));
    assert!(matches!(decode_text("Path:turn.end\r\n\r\n"), Ok(WebSocketMessage::TurnEnd)));
    assert!(matches!(
        decode_text("Path:audio.metadata\r\n\r\n{\"Metadata\":[\"\u{e9}\"]}"),
        Ok(WebSocketMessage::AudioMetadata { body: "{\"Metadata\":[\"\u{e9}\"]}" })
    ));
    assert!(matches!(
        decode_text("Path:something.new\r\n\r\n"),
        Ok(WebSocketMessage::Unrecognized)
    ));
    assert!(matches!(decode_text("Path:audio\r\n\r\n"), Ok(WebSocketMessage::Unrecognized)));
}

#[test]
fn text_frame_without_empty_line_is_no_message() {
    assert!(matches!(decode_text("Path:turn.start\r\n"), Err(DecodeError::MissingTerminator)));
    assert!(matches!(decode_text(""), Err(DecodeError::MissingTerminator)));
}

#[test]
fn frame_without_path_is_no_message() {
    assert!(matches!(decode_text("X-RequestId:1\r\n\r\nPath:x"), Err(DecodeError::MissingPath)));
    assert!(matches!(decode_text("\r\n\r\n"), Err(DecodeError::MissingPath)));
    assert!(matches!(
        decode_binary(&binary(b"X-RequestId:1\r\n", b"data")),
        Err(DecodeError::MissingPath)
    ));
}

#[test]
fn binary_frame_carries_audio_after_its_header_block() {
    let frame = binary(b"X-RequestId:1\r\nPath:audio\r\n", b"\x00\x01RIFF");
    assert!(matches!(
        decode_binary(&frame),
        Ok(WebSocketMessage::Audio { data: b"\x00\x01RIFF" })
    ));
    let empty = binary(b"Path:audio", b"");
    assert!(matches!(decode_binary(&empty), Ok(WebSocketMessage::Audio { data: b"" })));
    let other = binary(b"Path:video", b"xx");
    assert!(matches!(decode_binary(&other), Ok(WebSocketMessage::Unrecognized)));
}

#[test]
fn binary_frame_length_is_big_endian() {
    let mut headers = b"Path:audio\r\nX-Pad:".to_vec();
    headers.resize(258, b'x');
    let frame = binary(&headers, b"pcm");
    assert_eq!(&frame[..2], &[1, 2]);
    assert!(matches!(decode_binary(&frame), Ok(WebSocketMessage::Audio { data: b"pcm" })));
}

#[test]
fn binary_frame_with_header_longer_than_the_frame_is_no_message() {
    assert!(matches!(decode_binary(&[0, 5, b'P', b'a', b't', b'h']), Err(DecodeError::HeaderOverrun)));
    assert!(matches!(decode_binary(&[0xff, 0xff]), Err(DecodeError::HeaderOverrun)));
    assert!(matches!(decode_binary(&[0]), Err(DecodeError::HeaderOverrun)));
    assert!(matches!(decode_binary(&[]), Err(DecodeError::HeaderOverrun)));
    assert!(matches!(decode_binary(&[0, 0]), Err(DecodeError::MissingPath)));
    let good = binary(b"Path:audio", b"ok");
    assert!(matches!(decode_binary(&good), Ok(WebSocketMessage::Audio { data: b"ok" })));
}

#[test]
fn close_and_control_frames_are_messages() {
    let close = Frame::Close(Some(CloseFrame { code: 1000, reason: "bye".to_string() }));
    match decode(&close) {
        Ok(WebSocketMessage::Close(Some(frame))) => {
            assert_eq!(frame.code, 1000);
            assert_eq!(frame.reason, "bye");
        }
        other => panic!("{other:?}"),
    }
    assert!(matches!(decode(&Frame::Close(None)), Ok(WebSocketMessage::Close(None))));
    assert!(matches!(decode(&Frame::Ping(vec![1])), Ok(WebSocketMessage::Unrecognized)));
    assert!(matches!(decode(&Frame::Pong(vec![])), Ok(WebSocketMessage::Unrecognized)));
    assert!(matches!(decode(&Frame::Raw), Ok(WebSocketMessage::Unrecognized)));
    assert!(matches!(
        decode(&Frame::Text("Path:turn.end\r\n\r\n".to_string())),
        Ok(WebSocketMessage::TurnEnd)
    ));
    assert!(matches!(
        decode(&Frame::Binary(vec![0, 9])),
        Err(DecodeError::HeaderOverrun)
    ));
}

#[test]
fn outbound_message_has_one_header_to_a_line() {
    let text = encode_message("ssml", "abc", "2023-01-01T00:00:00Z", "application/ssml+xml", "<speak/>");
    assert_eq!(
        text,
        "Path: ssml\r\nX-RequestId: abc\r\nX-Timestamp: 2023-01-01T00:00:00Z\r\nContent-Type: application/ssml+xml\r\n\r\n<speak/>"
    );
}

#[test]
fn outbound_messages_read_back_as_written() {
    let id = "0123456789abcdef0123456789abcdef";
    let stamp = "2023-04-05T06:07:08.123456789Z";
    let messages = [
        (speech_config_message(id, stamp), "speech.config"),
        (synthesis_context_message(id, stamp, AudioFormat::Ogg24Khz16BitMonoOpus), "synthesis.context"),
        (ssml_message(id, stamp, "<speak>a\r\n\r\nb</speak>"), "ssml"),
    ];
    for (text, path) in &messages {
        assert_eq!(header_of_text(text, "Path"), Some(path.as_bytes()));
        assert_eq!(header_of_text(text, "X-RequestId"), Some(id.as_bytes()));
        assert_eq!(header_of_text(text, "X-Timestamp"), Some(stamp.as_bytes()));
        assert!(matches!(decode_text(text), Ok(WebSocketMessage::Unrecognized)));
    }
    assert_eq!(header_of_text(&messages[2].0, "Content-Type"), Some(&b"application/ssml+xml"[..]));
    assert_eq!(header_of_text("no terminator", "Path"), None);
}

#[test]
fn first_messages_carry_the_client_and_the_format() {
    let hello = speech_config_message("id", "now");
    assert!(hello.ends_with(CLIENT_INFO_PAYLOAD));
    assert!(hello.contains("\r\nContent-Type: application/json\r\n\r\n{\"context\""));
    let context = synthesis_context_message("id", "now", AudioFormat::Riff24Khz16BitMonoPcm);
    assert!(context.ends_with(
        "\r\n\r\n{\"synthesis\":{\"audio\":{\"metadataOptions\":{\"sentenceBoundaryEnabled\":false,\"wordBoundaryEnabled\":true,\"sessionEndEnabled\":false},\"outputFormat\":\"riff-24khz-16bit-mono-pcm\"}}}"
    ));
}

#[test]
fn text_outside_ascii_is_cut_at_character_boundaries() {
    assert!(matches!(
        decode_text("X-\u{dc}nicode: \u{fc}\r\nPath: response\r\n\r\n\u{65e5}\u{672c}\u{8a9e}"),
        Ok(WebSocketMessage::Response { body: "\u{65e5}\u{672c}\u{8a9e}" })
    ));
    assert!(matches!(
        decode_text("Path: audio.metadata\u{20}\r\n\r\n\u{1f600}"),
        Ok(WebSocketMessage::AudioMetadata { body: "\u{1f600}" })
    ));
    assert_eq!(
        header_of_text("K\u{e9}y: v\u{e4}lue\r\n\r\n", "K\u{e9}y"),
        Some("v\u{e4}lue".as_bytes())
    );
}
