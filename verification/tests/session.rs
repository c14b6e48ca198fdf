use aspeak::errors::{ErrorSource, SsmlError, TransportFault};
use aspeak::ssml::TextOptions;
use aspeak::msg::{header_of_text, CloseFrame, DecodeError, Frame};
use aspeak::net::WsStream;
use aspeak::session::{EngineState, Event, Session, Step};
use aspeak::synthesizer::websocket::{
    Synthesizer, WebsocketSynthesizer, WebsocketSynthesizerErrorKind,
};
use aspeak::types::AudioFormat;

fn text(path: &str, body: &str) -> Event {
    Event::Frame(Frame::Text(format!(
        "X-RequestId:0123\r\nContent-Type:application/json\r\nPath:{path}\r\n\r\n{body}"
    )))
}

fn audio(data: &[u8]) -> Event {
    let headers = b"X-RequestId:0123\r\nPath:audio\r\n";
    let mut frame = vec![0u8, headers.len() as u8];
    frame.extend_from_slice(headers);
    frame.extend_from_slice(data);
    Event::Frame(Frame::Binary(frame))
}

fn synthesizer(events: Vec<Event>) -> WebsocketSynthesizer {
    let mut stream = WsStream::new();
    for event in events {
        stream.feed(event);
    }
    WebsocketSynthesizer::new(AudioFormat::Riff24Khz16BitMonoPcm, stream)
}

#[test]
fn turn_returns_audio_and_metadata_in_arrival_order() {
    let mut synth = synthesizer(vec![
        text("turn.start", "{}"),
        audio(b"A"),
        text("audio.metadata", "m1"),
        audio(b"B"),
        text("turn.end", ""),
    ]);
    let audio = synth.synthesize_ssml("<speak/>").unwrap();
    assert_eq!(audio, b"AB".to_vec());
    assert_eq!(synth.audio_metadata, Some(vec!["m1".to_string()]));
    assert_eq!(synth.stream.sent.len(), 2);
    assert!(synth.stream.inbound.is_empty());
}

#[test]
fn close_before_turn_end_fails_with_its_code_and_reason() {
    let mut synth = synthesizer(vec![
        text("turn.start", "{}"),
        audio(b"A"),
        Event::Frame(Frame::Close(Some(CloseFrame { code: 1006, reason: String::new() }))),
        text("turn.end", ""),
    ]);
    let error = synth.synthesize_ssml("<speak/>").unwrap_err();
    assert_eq!(
        error.kind,
        WebsocketSynthesizerErrorKind::WebsocketConnectionClosed {
            code: "1006".to_string(),
            reason: String::new(),
        }
    );
    assert!(error.source.is_none());
    assert_eq!(synth.audio_metadata, None);
}

#[test]
fn stream_that_ends_without_close_frame_fails_as_closed_for_unknown_reason() {
    let mut synth = synthesizer(vec![text("turn.start", "{}"), audio(b"A")]);
    let error = synth.synthesize_ssml("<speak/>").unwrap_err();
    assert_eq!(
        error.kind,
        WebsocketSynthesizerErrorKind::WebsocketConnectionClosed {
            code: "Unknown".to_string(),
            reason: "The server closed the connection without a reason".to_string(),
        }
    );
}

#[test]
fn overlong_header_length_fails_the_turn_and_the_next_turn_still_runs() {
    let mut synth = synthesizer(vec![
        text("turn.start", "{}"),
        Event::Frame(Frame::Binary(vec![0, 200, b'P', b'a'])),
        text("turn.start", "{}"),
        audio(b"xyz"),
        text("turn.end", ""),
    ]);
    let error = synth.synthesize_ssml("<speak/>").unwrap_err();
    assert_eq!(error.kind, WebsocketSynthesizerErrorKind::InvalidMessage);
    assert_eq!(synth.synthesize_ssml("<speak/>").unwrap(), b"xyz".to_vec());
}

#[test]
fn request_goes_out_before_anything_is_received() {
    let mut synth = synthesizer(vec![text("turn.end", "")]);
    synth.synthesize_ssml("<speak>hi</speak>").unwrap();
    let sent = &synth.stream.sent;
    assert_eq!(header_of_text(&sent[0], "Path"), Some(&b"synthesis.context"[..]));
    assert_eq!(header_of_text(&sent[1], "Path"), Some(&b"ssml"[..]));
    assert!(sent[0].ends_with("\"outputFormat\":\"riff-24khz-16bit-mono-pcm\"}}}"));
    assert!(sent[1].ends_with("\r\n\r\n<speak>hi</speak>"));
    let id = header_of_text(&sent[0], "X-RequestId").unwrap();
    assert_eq!(header_of_text(&sent[1], "X-RequestId"), Some(id));
    assert_eq!(id.len(), 32);
    assert!(id.iter().all(|b| b.is_ascii_digit() || (b'a'..=b'f').contains(b)));
    let stamp = header_of_text(&sent[0], "X-Timestamp").unwrap();
    assert_eq!(header_of_text(&sent[1], "X-Timestamp"), Some(stamp));
    assert!(stamp.len() >= 20);
    assert!(stamp.iter().all(|b| b.is_ascii_digit() || b"-+:.TZ".contains(b)));
    assert_eq!(stamp[10], b'T');
    assert_eq!(stamp.last(), Some(&b'Z'));
}

#[test]
fn metadata_of_the_last_completed_turn_is_kept() {
    let mut synth = synthesizer(vec![
        text("audio.metadata", "early"),
        audio(b"1"),
        text("turn.start", "{}"),
        text("response", "{}"),
        text("audio.metadata", "late"),
        text("turn.end", ""),
        Event::Frame(Frame::Close(None)),
        text("audio.metadata", "second"),
        text("turn.end", ""),
    ]);
    assert_eq!(synth.synthesize_ssml("a").unwrap(), b"1".to_vec());
    assert_eq!(synth.audio_metadata, Some(vec!["early".to_string(), "late".to_string()]));
    assert!(synth.synthesize_ssml("b").is_err());
    assert_eq!(synth.audio_metadata, Some(vec!["early".to_string(), "late".to_string()]));
    assert_eq!(synth.synthesize_ssml("c").unwrap(), Vec::<u8>::new());
    assert_eq!(synth.audio_metadata, Some(vec!["second".to_string()]));
    assert_eq!(synth.stream.sent.len(), 6);
}

#[test]
fn unknown_messages_and_control_frames_are_passed_over() {
    let mut synth = synthesizer(vec![
        Event::Frame(Frame::Ping(vec![1, 2])),
        text("turn.start", "{}"),
        text("something.new", "?"),
        Event::Frame(Frame::Pong(vec![])),
        Event::Frame(Frame::Raw),
        audio(b"pcm"),
        Event::Frame(Frame::Binary(vec![0, 10, b'P', b'a', b't', b'h', b':', b'v', b'i', b'd', b'e', b'o', 9])),
        text("turn.end", ""),
    ]);
    assert_eq!(synth.synthesize_ssml("x").unwrap(), b"pcm".to_vec());
    assert_eq!(synth.audio_metadata, Some(vec![]));
}

#[test]
fn fault_fails_the_turn_with_its_own_error() {
    let fault = TransportFault::ResetWithoutClosingHandshake;
    let mut synth = synthesizer(vec![text("turn.start", "{}"), audio(b"A"), Event::Fault(fault)]);
    let error = synth.synthesize_ssml("x").unwrap_err();
    assert_eq!(error.kind, WebsocketSynthesizerErrorKind::Websocket);
    assert!(matches!(
        error.source,
        Some(ErrorSource::Transport(TransportFault::ResetWithoutClosingHandshake))
    ));
    assert!(error.advice().is_some());
}

#[test]
fn frame_that_is_no_message_fails_the_turn_with_the_reason() {
    for (frame, reason) in [
        (Frame::Text("Path:turn.start".to_string()), DecodeError::MissingTerminator),
        (Frame::Text("X:1\r\n\r\n".to_string()), DecodeError::MissingPath),
        (Frame::Binary(vec![1, 0, b'x']), DecodeError::HeaderOverrun),
    ] {
        let mut synth = synthesizer(vec![audio(b"A"), Event::Frame(frame), text("turn.end", "")]);
        let error = synth.synthesize_ssml("x").unwrap_err();
        assert_eq!(error.kind, WebsocketSynthesizerErrorKind::InvalidMessage);
        assert!(matches!(error.source, Some(ErrorSource::Message(r)) if r == reason));
        assert_eq!(synth.stream.inbound.len(), 1);
    }
}

#[test]
fn close_code_is_written_in_decimal() {
    let mut synth = synthesizer(vec![Event::Frame(Frame::Close(Some(CloseFrame {
        code: 4000,
        reason: "quota".to_string(),
    })))]);
    let error = synth.synthesize_ssml("x").unwrap_err();
    assert_eq!(
        error.kind,
        WebsocketSynthesizerErrorKind::WebsocketConnectionClosed {
            code: "4000".to_string(),
            reason: "quota".to_string(),
        }
    );
}

#[test]
fn session_moves_through_its_states() {
    let mut session = Session::new(AudioFormat::Ogg48Khz16BitMonoOpus);
    assert_eq!(session.state(), EngineState::Idle);
    assert_eq!(session.audio_format(), AudioFormat::Ogg48Khz16BitMonoOpus);
    assert_eq!(session.request_id(), "");
    assert!(matches!(session.handle(text("turn.start", "")), Step::Inactive));
    assert!(matches!(session.handle(Event::EndOfStream), Step::Inactive));
    assert_eq!(session.state(), EngineState::Idle);

    let (context, document) = session.start("<speak/>", "id7".to_string(), "now").unwrap();
    assert!(context.starts_with("Path: synthesis.context\r\nX-RequestId: id7\r\nX-Timestamp: now\r\n"));
    assert!(context.ends_with("\"outputFormat\":\"ogg-48khz-16bit-mono-opus\"}}}"));
    assert_eq!(
        document,
        "Path: ssml\r\nX-RequestId: id7\r\nX-Timestamp: now\r\nContent-Type: application/ssml+xml\r\n\r\n<speak/>"
    );
    assert_eq!(session.state(), EngineState::AwaitingTurnStart);
    assert_eq!(session.request_id(), "id7");
    assert!(session.start("<speak/>", "id8".to_string(), "later").is_none());
    assert_eq!(session.request_id(), "id7");

    assert!(matches!(session.handle(text("response", "")), Step::Continue));
    assert_eq!(session.state(), EngineState::AwaitingTurnStart);
    assert!(matches!(session.handle(text("turn.start", "")), Step::Continue));
    assert_eq!(session.state(), EngineState::Streaming);
    assert!(matches!(session.handle(text("turn.start", "")), Step::Continue));
    assert_eq!(session.state(), EngineState::Streaming);
    assert!(matches!(session.handle(audio(b"12")), Step::Continue));
    assert!(matches!(session.handle(text("audio.metadata", "m")), Step::Continue));
    assert!(matches!(session.handle(audio(b"3")), Step::Continue));
    match session.handle(text("turn.end", "")) {
        Step::Completed { audio, metadata } => {
            assert_eq!(audio, b"123".to_vec());
            assert_eq!(metadata, vec!["m".to_string()]);
        }
        other => panic!("{other:?}"),
    }
    assert_eq!(session.state(), EngineState::Completed);
    assert!(matches!(session.handle(audio(b"4")), Step::Inactive));
    assert!(session.begin("<speak/>").is_none());
    assert_eq!(session.state(), EngineState::Completed);
}

#[test]
fn session_ends_closed_or_failed() {
    let started = || {
        let mut session = Session::new(AudioFormat::default());
        assert!(session.begin("<speak/>").is_some());
        assert_eq!(session.request_id().len(), 32);
        session
    };
    let mut session = started();
    assert!(matches!(session.handle(Event::EndOfStream), Step::Failed(_)));
    assert_eq!(session.state(), EngineState::Closed);
    let mut session = started();
    assert!(matches!(session.handle(Event::Frame(Frame::Close(None))), Step::Failed(_)));
    assert_eq!(session.state(), EngineState::Closed);
    let mut session = started();
    assert!(matches!(session.handle(Event::Frame(Frame::Binary(vec![]))), Step::Failed(_)));
    assert_eq!(session.state(), EngineState::Failed);
    let mut session = started();
    let fault = TransportFault::Io { detail: "broken pipe".to_string() };
    match session.handle(Event::Fault(fault.clone())) {
        Step::Failed(error) => {
            assert_eq!(error.kind, WebsocketSynthesizerErrorKind::Websocket);
            assert!(matches!(error.source, Some(ErrorSource::Transport(kept)) if kept == fault));
        }
        other => panic!("{other:?}"),
    }
    assert_eq!(session.state(), EngineState::Failed);
    assert!(matches!(session.handle(text("turn.end", "")), Step::Inactive));
}

#[test]
fn stream_hands_out_events_in_order() {
    let mut stream = WsStream::new();
    assert!(stream.handshake.is_none());
    assert!(matches!(stream.next(), Event::EndOfStream));
    stream.feed(Event::Frame(Frame::Raw));
    stream.feed(Event::EndOfStream);
    stream.feed(Event::Frame(Frame::Close(None)));
    stream.send("one".to_string());
    stream.send("two".to_string());
    assert!(matches!(stream.next(), Event::Frame(Frame::Raw)));
    assert!(matches!(stream.next(), Event::EndOfStream));
    assert!(matches!(stream.next(), Event::Frame(Frame::Close(None))));
    assert!(matches!(stream.next(), Event::EndOfStream));
    assert_eq!(stream.sent, vec!["one".to_string(), "two".to_string()]);
}

fn options(voice: &str) -> TextOptions {
    TextOptions {
        voice: voice.to_string(),
        pitch: None,
        rate: None,
        style: None,
        role: None,
        style_degree: None,
    }
}

#[test]
fn options_that_make_no_document_send_nothing() {
    let mut synth: Synthesizer = synthesizer(vec![text("turn.end", "")]);
    let mut unstyled = options("en-US-JennyNeural");
    unstyled.style_degree = Some(150);
    let error = synth.synthesize_text("hello", &unstyled).unwrap_err();
    assert_eq!(error.kind, WebsocketSynthesizerErrorKind::Ssml);
    assert!(matches!(
        error.source,
        Some(ErrorSource::Ssml(SsmlError::StyleDegreeWithoutStyle))
    ));
    assert!(synth.stream.sent.is_empty());
    assert_eq!(synth.stream.inbound.len(), 1);
}

#[test]
fn text_is_sent_as_a_document() {
    let mut synth = synthesizer(vec![audio(b"hi"), text("turn.end", "")]);
    let audio = synth.synthesize_text("a < b", &options("en-US-JennyNeural")).unwrap();
    assert_eq!(audio, b"hi".to_vec());
    assert_eq!(synth.stream.sent.len(), 2);
    assert!(synth.stream.sent[1].ends_with(
        "\r\n\r\n<speak xmlns=\"http://www.w3.org/2001/10/synthesis\" xmlns:mstts=\"http://www.w3.org/2001/mstts\" xmlns:emo=\"http://www.w3.org/2009/10/emotionml\" version=\"1.0\" xml:lang=\"en-US\"><voice name=\"en-US-JennyNeural\"><prosody>a &lt; b</prosody></voice></speak>"
    ));
}
