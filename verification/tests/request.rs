use aspeak::constants::{DEFAULT_ENDPOINT, ORIGIN};
use aspeak::errors::{ConnectError, ErrorSource};
use aspeak::net::{
    check_connect_status, parse_proxy, plan_route, Credentials, Proxy, Route,
};
use aspeak::request::{client_request_for, query_pairs_for, request_headers_for};
use aspeak::synthesizer::websocket::WebsocketSynthesizerErrorKind;
use aspeak::synthesizer::SynthesizerConfig;
use aspeak::types::{AudioFormat, AuthOptions};

fn auth() -> AuthOptions {
    AuthOptions {
        endpoint: DEFAULT_ENDPOINT.to_string(),
        token: None,
        key: None,
        headers: Vec::new(),
        proxy: None,
    }
}

fn pair(a: &str, b: &str) -> (String, String) {
    (a.to_string(), b.to_string())
}

#[test]
fn request_names_the_connection_in_the_query() {
    let request = client_request_for(&auth(), "abc123").unwrap();
    assert_eq!(
        request.uri,
        "wss://eastus.api.speech.microsoft.com/cognitiveservices/websocket/v1?X-ConnectionId=abc123"
    );
    assert_eq!(request.headers, vec![pair("Origin", ORIGIN)]);
}

#[test]
fn request_carries_the_token_in_the_query() {
    let mut options = auth();
    options.endpoint = "wss://example.net/v1?lang=fr".to_string();
    options.token = Some("t k&n".to_string());
    assert_eq!(
        query_pairs_for(&options, "id"),
        vec![pair("X-ConnectionId", "id"), pair("Authorization", "t k&n")]
    );
    let request = client_request_for(&options, "id").unwrap();
    assert_eq!(
        request.uri,
        "wss://example.net/v1?lang=fr&X-ConnectionId=id&Authorization=t+k%26n"
    );
}

#[test]
fn subscription_key_comes_before_custom_headers_and_origin() {
    let mut options = auth();
    options.headers = vec![pair("X-First", "1"), pair("X-Second", "2")];
    assert_eq!(request_headers_for(&options), vec![pair("X-First", "1"), pair("X-Second", "2")]);
    options.key = Some("secret".to_string());
    assert_eq!(
        request_headers_for(&options),
        vec![pair("Ocp-Apim-Subscription-Key", "secret")]
    );
    options.headers.clear();
    assert_eq!(
        client_request_for(&options, "id").unwrap().headers,
        vec![pair("Ocp-Apim-Subscription-Key", "secret")]
    );
    options.key = None;
    assert_eq!(request_headers_for(&options), vec![pair("Origin", "https://azure.microsoft.com")]);
}

#[test]
fn endpoint_that_is_no_address_is_an_invalid_request() {
    let mut options = auth();
    options.endpoint = "eastus.api.speech.microsoft.com".to_string();
    let error = client_request_for(&options, "id").unwrap_err();
    assert_eq!(error.kind, WebsocketSynthesizerErrorKind::InvalidRequest);
    assert!(matches!(
        error.source,
        Some(ErrorSource::Url(url::ParseError::RelativeUrlWithoutBase))
    ));
}

#[test]
fn key_that_cannot_be_sent_is_an_invalid_request() {
    let mut options = auth();
    options.key = Some("two\nlines".to_string());
    let error = client_request_for(&options, "id").unwrap_err();
    assert_eq!(error.kind, WebsocketSynthesizerErrorKind::InvalidRequest);
    assert!(matches!(error.source, Some(ErrorSource::HeaderValue(_))));
    options.key = Some("tab\tand \u{e9} are fine".to_string());
    assert!(client_request_for(&options, "id").is_ok());
    options.key = Some("del\u{7f}".to_string());
    assert!(client_request_for(&options, "id").is_err());
}

#[test]
fn custom_header_that_cannot_be_sent_is_an_invalid_request() {
    let mut options = auth();
    options.headers = vec![pair("X-Good", "1"), pair("bad name", "2"), pair("X-Later", "\n")];
    let error = client_request_for(&options, "id").unwrap_err();
    assert_eq!(error.kind, WebsocketSynthesizerErrorKind::InvalidRequest);
    assert!(matches!(error.source, Some(ErrorSource::HeaderName(_))));
    options.headers = vec![pair("X-Good", "1"), pair("X-Later", "\r")];
    let error = client_request_for(&options, "id").unwrap_err();
    assert!(matches!(error.source, Some(ErrorSource::HeaderValue(_))));
}

#[test]
fn no_proxy_means_a_direct_route() {
    assert_eq!(parse_proxy(None), Ok(Proxy::Direct));
    assert_eq!(
        plan_route(DEFAULT_ENDPOINT, None),
        Ok(Route {
            proxy: Proxy::Direct,
            host: "eastus.api.speech.microsoft.com".to_string(),
            port: 443,
        })
    );
    assert_eq!(
        plan_route("ws://localhost:8080/v1", None),
        Ok(Route { proxy: Proxy::Direct, host: "localhost".to_string(), port: 8080 })
    );
    assert_eq!(plan_route("ws://localhost/v1", None).unwrap().port, 80);
    assert_eq!(plan_route("speech://localhost/v1", None).unwrap().port, 443);
}

#[test]
fn proxies_are_told_apart_by_their_scheme() {
    assert_eq!(
        parse_proxy(Some("socks5://127.0.0.1:1080")),
        Ok(Proxy::Socks5 { host: "127.0.0.1".to_string(), port: 1080, credentials: None })
    );
    assert_eq!(
        parse_proxy(Some("socks5://user:pw@proxy.example:9050")),
        Ok(Proxy::Socks5 {
            host: "proxy.example".to_string(),
            port: 9050,
            credentials: Some(Credentials {
                username: "user".to_string(),
                password: "pw".to_string(),
            }),
        })
    );
    assert_eq!(
        parse_proxy(Some("http://user@proxy.example")),
        Ok(Proxy::Http {
            host: "proxy.example".to_string(),
            port: 80,
            credentials: Some(Credentials { username: "user".to_string(), password: String::new() }),
        })
    );
    assert_eq!(
        parse_proxy(Some("https://proxy.example")),
        Ok(Proxy::Http { host: "proxy.example".to_string(), port: 443, credentials: None })
    );
}

#[test]
fn proxy_that_gives_no_route_is_a_connect_error() {
    assert_eq!(
        parse_proxy(Some("not a url")),
        Err(ConnectError::InvalidProxyUrl { url: "not a url".to_string() })
    );
    assert_eq!(
        parse_proxy(Some("socks4://127.0.0.1:1080")),
        Err(ConnectError::UnsupportedScheme { scheme: "socks4".to_string() })
    );
    assert_eq!(
        parse_proxy(Some("socks5://127.0.0.1")),
        Err(ConnectError::InvalidProxyUrl { url: "socks5://127.0.0.1".to_string() })
    );
    assert_eq!(
        plan_route("mailto:someone@example.net", None),
        Err(ConnectError::InvalidEndpoint { url: "mailto:someone@example.net".to_string() })
    );
    assert_eq!(
        plan_route("nonsense", Some("ftp://proxy")),
        Err(ConnectError::UnsupportedScheme { scheme: "ftp".to_string() })
    );
}

#[test]
fn tunnel_is_open_on_success_only() {
    assert_eq!(check_connect_status(200), Ok(()));
    assert_eq!(check_connect_status(299), Ok(()));
    assert_eq!(check_connect_status(199), Err(ConnectError::BadResponse { status: 199 }));
    assert_eq!(check_connect_status(300), Err(ConnectError::BadResponse { status: 300 }));
    assert_eq!(check_connect_status(407), Err(ConnectError::BadResponse { status: 407 }));
}

#[test]
fn connecting_sends_the_client_info_first() {
    let config = SynthesizerConfig::new(auth(), AudioFormat::Ogg16Khz16BitMonoOpus);
    let synthesizer = config.connect_as("c0ffee", "r1", "2023-01-01T00:00:00Z").unwrap();
    assert_eq!(synthesizer.audio_format, AudioFormat::Ogg16Khz16BitMonoOpus);
    assert_eq!(synthesizer.audio_metadata, None);
    let handshake = synthesizer.stream.handshake.clone().unwrap();
    assert!(handshake.request.uri.ends_with("?X-ConnectionId=c0ffee"));
    assert_eq!(handshake.route.proxy, Proxy::Direct);
    assert_eq!(synthesizer.stream.sent.len(), 1);
    assert!(synthesizer.stream.sent[0].starts_with(
        "Path: speech.config\r\nX-RequestId: r1\r\nX-Timestamp: 2023-01-01T00:00:00Z\r\nContent-Type: application/json\r\n\r\n"
    ));
    assert!(synthesizer.stream.inbound.is_empty());
}

#[test]
fn handshake_is_the_same_through_every_proxy() {
    let through = |proxy: Option<&str>| {
        let mut options = auth();
        options.proxy = proxy.map(str::to_string);
        SynthesizerConfig::new(options, AudioFormat::default())
            .connect_as("c0ffee", "r1", "t")
            .unwrap()
            .stream
    };
    let direct = through(None);
    let socks = through(Some("socks5://127.0.0.1:1080"));
    let http = through(Some("http://127.0.0.1:3128"));
    let request = direct.handshake.as_ref().unwrap().request.clone();
    assert_eq!(socks.handshake.as_ref().unwrap().request, request);
    assert_eq!(http.handshake.as_ref().unwrap().request, request);
    assert_eq!(socks.sent, direct.sent);
    assert_eq!(http.sent, direct.sent);
    assert!(matches!(socks.handshake.unwrap().route.proxy, Proxy::Socks5 { .. }));
    assert!(matches!(http.handshake.unwrap().route.proxy, Proxy::Http { .. }));
}

#[test]
fn connecting_fails_before_anything_is_sent() {
    let mut options = auth();
    options.proxy = Some("gopher://proxy".to_string());
    let error = SynthesizerConfig::new(options.clone(), AudioFormat::default())
        .connect()
        .unwrap_err();
    assert_eq!(error.kind, WebsocketSynthesizerErrorKind::Connect);
    assert!(matches!(
        error.source,
        Some(ErrorSource::Connect(ConnectError::UnsupportedScheme { .. }))
    ));
    options.endpoint = "::".to_string();
    let error = SynthesizerConfig::new(options, AudioFormat::default()).connect().unwrap_err();
    assert_eq!(error.kind, WebsocketSynthesizerErrorKind::InvalidRequest);
}

#[test]
fn fresh_connection_gets_fresh_identifiers() {
    let config = SynthesizerConfig::new(auth(), AudioFormat::default());
    let first = config.generate_client_request().unwrap();
    let second = config.generate_client_request().unwrap();
    assert_ne!(first.uri, second.uri);
    let id = first.uri.rsplit("X-ConnectionId=").next().unwrap();
    assert_eq!(id.len(), 32);
    assert!(id.bytes().all(|b| b.is_ascii_digit() || (b'a'..=b'f').contains(&b)));
    let synthesizer = config.connect().unwrap();
    assert_eq!(synthesizer.stream.sent.len(), 1);
}
