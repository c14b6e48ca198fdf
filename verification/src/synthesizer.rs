//! Synthesizers and what configures them.

pub mod websocket;

use vstd::prelude::*;
use vstd::std_specs::convert::FromSpec;
use vstd::utf8::encode_utf8;
use crate::address::{pairs_size, MAX_URL_INPUT};
use crate::errors::{ConnectError, ErrorSource};
use crate::net::{plan_route, route_of, Handshake, HandshakeView, StreamView, WsStream};
use crate::outbound::{speech_config_message, speech_config_text};
use crate::request::{
    client_request, client_request_for, fits_address, query_pairs, request_fault, tells_of,
    AuthView, ClientRequest,
};
use crate::stamp::{fresh_request_id, is_request_id, is_timestamp, timestamp_now};
use crate::synthesizer::websocket::{
    ErrorKindView, SynthesizerView, WebsocketSynthesizer, WebsocketSynthesizerError,
};
use crate::types::{AudioFormat, AuthOptions};
use crate::utf8::lemma_ascii_encoding;

verus! {

/// What a synthesizer is made from: how to reach the service, and the format
/// of the audio to ask for.
#[derive(Debug, Clone)]
pub struct SynthesizerConfig {
    /// The authentication options.
    pub auth: AuthOptions,
    /// The audio format of the output audio.
    pub audio_format: AudioFormat,
}

/// A configuration as mathematical values.
pub struct ConfigView {
    pub auth: AuthView,
    pub audio_format: AudioFormat,
}

impl View for SynthesizerConfig {
    type V = ConfigView;

    open spec fn view(&self) -> ConfigView {
        ConfigView { auth: self.auth@, audio_format: self.audio_format }
    }
}

/// The synthesizer that a configuration connects to, where nothing is wrong
/// with it: the stream is established by the request of the given connection
/// identifier on the route to the endpoint, and the first message, which
/// tells about the client, has been sent on it.
pub open spec fn connected(
    config: ConfigView,
    connection_id: Seq<char>,
    request_id: Seq<char>,
    timestamp: Seq<char>,
) -> SynthesizerView {
    SynthesizerView {
        audio_format: config.audio_format,
        stream: StreamView {
            handshake: Some(
                HandshakeView {
                    request: client_request(config.auth, connection_id),
                    route: route_of(config.auth.endpoint, config.auth.proxy)->Ok_0,
                },
            ),
            sent: seq![speech_config_text(request_id, timestamp)],
            inbound: Seq::empty(),
        },
        audio_metadata: None,
    }
}

/// What connecting comes to.
///
/// A fault in the options is found first and is an invalid request. A proxy
/// or an endpoint that gives no route is a failure to connect, with the
/// reason as its cause. Otherwise the synthesizer is connected.
pub open spec fn connect_outcome(
    r: Result<WebsocketSynthesizer, WebsocketSynthesizerError>,
    config: ConfigView,
    connection_id: Seq<char>,
    request_id: Seq<char>,
    timestamp: Seq<char>,
) -> bool {
    match request_fault(config.auth, connection_id) {
        Some(fault) => r matches Err(e) && tells_of(e, fault),
        None => match route_of(config.auth.endpoint, config.auth.proxy) {
            Err(reason) => {
                &&& r matches Err(e)
                &&& e@.kind == ErrorKindView::Connect
                &&& e.source matches Some(ErrorSource::Connect(c))
                &&& c@ == reason
            },
            Ok(_) => r matches Ok(synthesizer) && synthesizer@ == connected(
                config,
                connection_id,
                request_id,
                timestamp,
            ),
        },
    }
}

/// The options are small enough for an address to be made of them with any
/// connection identifier.
pub open spec fn auth_fits(auth: AuthView) -> bool {
    encode_utf8(auth.endpoint).len() + match auth.token {
        Some(token) => encode_utf8(token).len(),
        None => 0,
    } + 64 <= MAX_URL_INPUT
}

/// Options that are small enough for any connection identifier are small
/// enough for each.
pub proof fn lemma_auth_fits(auth: AuthView, connection_id: Seq<char>)
    requires
        auth_fits(auth),
        is_request_id(connection_id),
    ensures
        fits_address(auth, connection_id),
{
    reveal_strlit("X-ConnectionId");
    reveal_strlit("Authorization");
    lemma_ascii_encoding("X-ConnectionId"@);
    lemma_ascii_encoding("Authorization"@);
    lemma_ascii_encoding(connection_id);
    let pairs = query_pairs(auth, connection_id);
    reveal_with_fuel(pairs_size, 3);
    match auth.token {
        Some(token) => {
            assert(pairs.drop_first() =~= seq![("Authorization"@, token)]);
            assert(pairs.drop_first().drop_first() =~= Seq::empty());
        },
        None => {
            assert(pairs.drop_first() =~= Seq::empty());
        },
    }
}

/// The handshake is the same on every route: two configurations that differ
/// in their proxy alone make the same request, find the same fault in it, and
/// send the same first message.
pub proof fn lemma_same_handshake_on_every_route(
    a: ConfigView,
    b: ConfigView,
    connection_id: Seq<char>,
    request_id: Seq<char>,
    timestamp: Seq<char>,
)
    requires
        a.audio_format == b.audio_format,
        a.auth == (AuthView { proxy: a.auth.proxy, ..b.auth }),
    ensures
        request_fault(a.auth, connection_id) == request_fault(b.auth, connection_id),
        client_request(a.auth, connection_id) == client_request(b.auth, connection_id),
        connected(a, connection_id, request_id, timestamp).stream.handshake->0.request
            == connected(b, connection_id, request_id, timestamp).stream.handshake->0.request,
        connected(a, connection_id, request_id, timestamp).stream.sent == connected(
            b,
            connection_id,
            request_id,
            timestamp,
        ).stream.sent,
{
}

/// Whatever keeps a stream from being established is a failure to connect:
/// a proxy's address that names no proxy, a SOCKS5 proxy's malformed reply,
/// an HTTP proxy's refusal, a connection that fails. The reason is kept as
/// the error's cause.
pub proof fn lemma_connect_errors_are_connect(e: ConnectError)
    ensures
        <WebsocketSynthesizerError as FromSpec<ConnectError>>::from_spec(e)@.kind
            == ErrorKindView::Connect,
        <WebsocketSynthesizerError as FromSpec<ConnectError>>::from_spec(e).source == Some(
            ErrorSource::Connect(e),
        ),
{
}

impl SynthesizerConfig {
    /// Tells whether the options are small enough to connect with.
    pub fn fits(&self) -> (r: bool)
        ensures
            r == auth_fits(self@.auth),
    {
        let endpoint = self.auth.endpoint.as_str().as_bytes().len();
        let token = match &self.auth.token {
            Some(token) => token.as_str().as_bytes().len(),
            None => 0,
        };
        endpoint <= MAX_URL_INPUT - 64 && token <= MAX_URL_INPUT - 64 - endpoint
    }

    /// Create a new [`SynthesizerConfig`] with the given [`AuthOptions`] and
    /// [`AudioFormat`].
    pub fn new(auth: AuthOptions, audio_format: AudioFormat) -> (r: Self)
        ensures
            r.auth == auth,
            r.audio_format == audio_format,
    {
        Self { auth, audio_format }
    }

    /// Makes the request that opens a connection, under a fresh connection
    /// identifier.
    pub fn generate_client_request(&self) -> (r: Result<ClientRequest, WebsocketSynthesizerError>)
        requires
            auth_fits(self@.auth),
        ensures
            exists|connection_id: Seq<char>|
                is_request_id(connection_id) && match r {
                    Ok(request) => request_fault(self@.auth, connection_id) is None && request@
                        == #[trigger] client_request(self@.auth, connection_id),
                    Err(e) => request_fault(self@.auth, connection_id) matches Some(fault)
                        && tells_of(e, fault),
                },
    {
        let connection_id = fresh_request_id();
        proof {
            lemma_auth_fits(self@.auth, connection_id@);
        }
        let r = client_request_for(&self.auth, connection_id.as_str());
        proof {
            let witness = client_request(self@.auth, connection_id@);
        }
        r
    }

    /// Connects under the given connection identifier, and sends the first
    /// message under the given request identifier and timestamp.
    pub fn connect_as(self, connection_id: &str, request_id: &str, timestamp: &str) -> (r: Result<
        WebsocketSynthesizer,
        WebsocketSynthesizerError,
    >)
        requires
            fits_address(self@.auth, connection_id@),
        ensures
            connect_outcome(r, self@, connection_id@, request_id@, timestamp@),
    {
        let request = match client_request_for(&self.auth, connection_id) {
            Ok(request) => request,
            Err(e) => {
                return Err(e);
            },
        };
        let proxy: Option<&str> = match &self.auth.proxy {
            Some(text) => Some(text.as_str()),
            None => None,
        };
        let route = match plan_route(self.auth.endpoint.as_str(), proxy) {
            Ok(route) => route,
            Err(e) => {
                return Err(WebsocketSynthesizerError::from(e));
            },
        };
        let mut stream = WsStream::established(Handshake { request, route });
        stream.send(speech_config_message(request_id, timestamp));
        assert(stream@.sent =~= seq![speech_config_text(request_id@, timestamp@)]);
        Ok(WebsocketSynthesizer::new(self.audio_format, stream))
    }

    /// Connect to the speech service and return a [`WebsocketSynthesizer`] on
    /// success.
    ///
    /// The connection gets a fresh identifier, and the first message goes out
    /// under another and under the current time.
    pub fn connect(self) -> (r: Result<WebsocketSynthesizer, WebsocketSynthesizerError>)
        requires
            auth_fits(self@.auth),
        ensures
            exists|connection_id: Seq<char>, request_id: Seq<char>, timestamp: Seq<char>|
                is_request_id(connection_id) && is_request_id(request_id) && is_timestamp(
                    timestamp,
                ) && #[trigger] connect_outcome(
                    r,
                    self@,
                    connection_id,
                    request_id,
                    timestamp,
                ),
    {
        let connection_id = fresh_request_id();
        let request_id = fresh_request_id();
        let timestamp = timestamp_now();
        proof {
            lemma_auth_fits(self@.auth, connection_id@);
        }
        self.connect_as(connection_id.as_str(), request_id.as_str(), timestamp.as_str())
    }
}

} // verus!
