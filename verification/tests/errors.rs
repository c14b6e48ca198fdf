use aspeak::errors::{ConnectError, ErrorSource, SsmlError, TransportFault};
use aspeak::msg::DecodeError;
use aspeak::synthesizer::websocket::{
    WebsocketSynthesizerError, WebsocketSynthesizerErrorKind, RESET_NOTE, RESET_SUGGESTION,
};
use aspeak::types::FormatError;

#[test]
fn each_cause_has_its_kind_and_is_kept() {
    let error = WebsocketSynthesizerError::from(url::ParseError::EmptyHost);
    assert_eq!(error.kind, WebsocketSynthesizerErrorKind::InvalidRequest);
    assert!(matches!(error.source(), Some(ErrorSource::Url(url::ParseError::EmptyHost))));

    let invalid = hyper::header::HeaderValue::from_str("\n").unwrap_err();
    let error = WebsocketSynthesizerError::from(invalid);
    assert_eq!(error.kind, WebsocketSynthesizerErrorKind::InvalidRequest);
    assert!(matches!(error.source, Some(ErrorSource::HeaderValue(_))));

    let invalid = hyper::header::HeaderName::from_bytes(b"a b").unwrap_err();
    let error = WebsocketSynthesizerError::from(invalid);
    assert_eq!(error.kind, WebsocketSynthesizerErrorKind::InvalidRequest);
    assert!(matches!(error.source, Some(ErrorSource::HeaderName(_))));

    let cause = FormatError::UnknownContainer { container: "flac".to_string() };
    let error = WebsocketSynthesizerError::from(cause.clone());
    assert_eq!(error.kind, WebsocketSynthesizerErrorKind::InvalidRequest);
    assert!(matches!(error.source, Some(ErrorSource::Format(kept)) if kept == cause));

    let cause = ConnectError::Socks5 { detail: "malformed reply".to_string() };
    let error = WebsocketSynthesizerError::from(cause.clone());
    assert_eq!(error.kind, WebsocketSynthesizerErrorKind::Connect);
    assert!(matches!(error.source, Some(ErrorSource::Connect(kept)) if kept == cause));

    let cause = ConnectError::BadResponse { status: 403 };
    let error = WebsocketSynthesizerError::from(cause.clone());
    assert_eq!(error.kind, WebsocketSynthesizerErrorKind::Connect);
    assert!(matches!(error.source, Some(ErrorSource::Connect(kept)) if kept == cause));

    let cause = TransportFault::Io { detail: "broken pipe".to_string() };
    let error = WebsocketSynthesizerError::from(cause.clone());
    assert_eq!(error.kind, WebsocketSynthesizerErrorKind::Websocket);
    assert!(matches!(error.source, Some(ErrorSource::Transport(kept)) if kept == cause));

    let cause = SsmlError::StyleDegreeOutOfRange { hundredths: 201 };
    let error = WebsocketSynthesizerError::from(cause);
    assert_eq!(error.kind, WebsocketSynthesizerErrorKind::Ssml);
    assert!(matches!(error.source, Some(ErrorSource::Ssml(kept)) if kept == cause));

    let error = WebsocketSynthesizerError::from(DecodeError::MissingPath);
    assert_eq!(error.kind, WebsocketSynthesizerErrorKind::InvalidMessage);
    assert!(matches!(error.source, Some(ErrorSource::Message(DecodeError::MissingPath))));
}

#[test]
fn closed_connection_has_no_cause() {
    let error = WebsocketSynthesizerError::connection_closed("1000".to_string(), "done".to_string());
    assert_eq!(
        error.kind,
        WebsocketSynthesizerErrorKind::WebsocketConnectionClosed {
            code: "1000".to_string(),
            reason: "done".to_string(),
        }
    );
    assert!(error.source().is_none());
}

#[test]
fn errors_say_what_they_are() {
    let closed = WebsocketSynthesizerError::connection_closed("1006".to_string(), "gone".to_string());
    assert_eq!(
        closed.message(),
        "ws synthesizer error: the websocket connection was closed with code 1006 and reason gone"
    );
    assert_eq!(
        WebsocketSynthesizerError::from(DecodeError::HeaderOverrun).message(),
        "ws synthesizer error: aspeak cannot handle this message. Please report this bug to https://github.com/kxxt/aspeak/issues."
    );
    assert_eq!(
        WebsocketSynthesizerError::from(url::ParseError::EmptyHost).message(),
        "ws synthesizer error: Invalid Request error"
    );
    assert_eq!(
        WebsocketSynthesizerError::from(ConnectError::BadResponse { status: 500 }).message(),
        "ws synthesizer error: Connect error"
    );
    assert_eq!(
        WebsocketSynthesizerError::from(TransportFault::AlreadyClosed).message(),
        "ws synthesizer error: Websocket error"
    );
    assert_eq!(
        WebsocketSynthesizerError::from(SsmlError::RoleWithoutStyle).message(),
        "ws synthesizer error: Ssml error"
    );
    assert_eq!(
        WebsocketSynthesizerErrorKind::WebsocketConnectionClosed {
            code: String::new(),
            reason: String::new(),
        }
        .title(),
        "Websocket Connection Closed"
    );
    assert_eq!(WebsocketSynthesizerErrorKind::InvalidMessage.title(), "Invalid Message");
}

#[test]
fn reset_without_closing_handshake_comes_with_advice() {
    let reset = WebsocketSynthesizerError::from(TransportFault::ResetWithoutClosingHandshake);
    assert_eq!(reset.kind, WebsocketSynthesizerErrorKind::Websocket);
    assert_eq!(reset.advice(), Some((RESET_NOTE, RESET_SUGGESTION)));
    assert!(RESET_NOTE.contains("poor internet connection"));
    let other = WebsocketSynthesizerError::from(TransportFault::AlreadyClosed);
    assert_eq!(other.advice(), None);
    let closed = WebsocketSynthesizerError::connection_closed(String::new(), String::new());
    assert_eq!(closed.advice(), None);
}

#[test]
fn causes_say_what_they_are() {
    assert_eq!(
        FormatError::UnknownContainer { container: "flac".to_string() }.message(),
        "No quality map found for container: flac. Please check if the container is correct."
    );
    assert_eq!(
        FormatError::InvalidQuality { container: "mp3".to_string(), quality: -5 }.message(),
        "Invalid quality found for container: mp3 and quality: -5. Please check if the quality is correct."
    );
    assert_eq!(
        FormatError::InvalidQuality { container: "wav".to_string(), quality: 2 }.message(),
        "Invalid quality found for container: wav and quality: 2. Please check if the quality is correct."
    );
    assert_eq!(
        ConnectError::InvalidProxyUrl { url: "::".to_string() }.message(),
        "Invalid proxy url: ::"
    );
    assert_eq!(
        ConnectError::UnsupportedScheme { scheme: "ftp".to_string() }.message(),
        "Unsupported proxy scheme: ftp"
    );
    assert_eq!(
        ConnectError::InvalidEndpoint { url: "mailto:a@b".to_string() }.message(),
        "Invalid endpoint: mailto:a@b"
    );
    assert_eq!(
        ConnectError::Socks5 { detail: "Invalid response version".to_string() }.message(),
        "SOCKS5 proxy error: Invalid response version"
    );
    assert_eq!(
        ConnectError::BadResponse { status: 407 }.message(),
        "The proxy refused the tunnel with status 407"
    );
    assert_eq!(
        ConnectError::Connection { detail: "timed out".to_string() }.message(),
        "Connection error: timed out"
    );
}
