//! The stream between the client and the service, and the way to it.
//!
//! A stream is reached directly, through a SOCKS5 proxy, or through an HTTP
//! proxy that opens a tunnel. Whichever way is taken, what is sent and
//! received on the stream is the same.

use std::collections::VecDeque;
use vstd::prelude::*;
use vstd::slice::slice_to_vec;
use vstd::string::StringExecFns;
use vstd::utf8::encode_utf8;
use crate::base64::{base64, encode_into};
use crate::scan::COLON;
use crate::address::{parsed_url, url_parts, UrlParts, UrlPartsView};
use crate::constants::DEFAULT_PORT;
use crate::errors::{ConnectError, ConnectErrorView};
use crate::request::{ClientRequest, ClientRequestView};
use crate::session::{Event, EventView};
use crate::text::str_eq;

verus! {

/// The name and the password with which a proxy is asked, each as the
/// proxy's address writes it.
#[derive(Clone, Debug, PartialEq, Eq)]
pub struct Credentials {
    pub username: String,
    pub password: String,
}

/// Credentials as mathematical values.
pub struct CredentialsView {
    pub username: Seq<char>,
    pub password: Seq<char>,
}

impl View for Credentials {
    type V = CredentialsView;

    open spec fn view(&self) -> CredentialsView {
        CredentialsView { username: self.username@, password: self.password@ }
    }
}

/// What an HTTP proxy is told to prove who asks: `Basic`, and the name, a
/// colon and the password in Base64.
pub open spec fn basic_authorization(credentials: CredentialsView) -> Seq<char> {
    "Basic "@ + base64(
        encode_utf8(credentials.username) + seq![COLON] + encode_utf8(credentials.password),
    )
}

impl Credentials {
    /// Writes the credentials as an HTTP proxy takes them, in the
    /// `Proxy-Authorization` header.
    pub fn basic_authorization(&self) -> (r: String)
        ensures
            r@ == basic_authorization(self@),
    {
        let mut bytes: Vec<u8> = slice_to_vec(self.username.as_str().as_bytes());
        bytes.push(COLON);
        let ghost named = bytes@;
        assert(named =~= encode_utf8(self.username@) + seq![COLON]);
        bytes.extend_from_slice(self.password.as_str().as_bytes());
        assert(bytes@ =~= named + encode_utf8(self.password@));
        let mut out = String::from_str("Basic ");
        encode_into(bytes.as_slice(), &mut out);
        out
    }
}

/// The proxy to go through, if any.
#[derive(Clone, Debug, PartialEq, Eq)]
pub enum Proxy {
    /// No proxy: the service is reached directly.
    Direct,
    /// A SOCKS5 proxy.
    Socks5 { host: String, port: u16, credentials: Option<Credentials> },
    /// An HTTP proxy, asked for a tunnel with `CONNECT`.
    Http { host: String, port: u16, credentials: Option<Credentials> },
}

/// A proxy as mathematical values.
pub enum ProxyView {
    Direct,
    Socks5 { host: Seq<char>, port: u16, credentials: Option<CredentialsView> },
    Http { host: Seq<char>, port: u16, credentials: Option<CredentialsView> },
}

impl View for Proxy {
    type V = ProxyView;

    open spec fn view(&self) -> ProxyView {
        match self {
            Proxy::Direct => ProxyView::Direct,
            Proxy::Socks5 { host, port, credentials } => ProxyView::Socks5 {
                host: host@,
                port: *port,
                credentials: match credentials {
                    Some(c) => Some(c@),
                    None => None,
                },
            },
            Proxy::Http { host, port, credentials } => ProxyView::Http {
                host: host@,
                port: *port,
                credentials: match credentials {
                    Some(c) => Some(c@),
                    None => None,
                },
            },
        }
    }
}

/// The way to the service: the proxy to go through, and the host and port of
/// the service itself.
#[derive(Clone, Debug, PartialEq, Eq)]
pub struct Route {
    pub proxy: Proxy,
    pub host: String,
    pub port: u16,
}

/// A route as mathematical values.
pub struct RouteView {
    pub proxy: ProxyView,
    pub host: Seq<char>,
    pub port: u16,
}

impl View for Route {
    type V = RouteView;

    open spec fn view(&self) -> RouteView {
        RouteView { proxy: self.proxy@, host: self.host@, port: self.port }
    }
}

/// The credentials that an address carries: none where it has neither a user
/// name nor a password.
pub open spec fn credentials_of(parts: UrlPartsView) -> Option<CredentialsView> {
    if parts.username.len() == 0 && parts.password is None {
        None
    } else {
        Some(
            CredentialsView {
                username: parts.username,
                password: match parts.password {
                    Some(password) => password,
                    None => Seq::empty(),
                },
            },
        )
    }
}

/// The proxy that an address names, given the text of the address and what
/// it reads as.
///
/// The scheme `socks5` names a SOCKS5 proxy, `http` and `https` name an HTTP
/// proxy, and any other scheme is not supported. The address must be one, and
/// must hold a host and a port.
pub open spec fn proxy_from(text: Seq<char>, parts: Option<UrlPartsView>) -> Result<
    ProxyView,
    ConnectErrorView,
> {
    match parts {
        None => Err(ConnectErrorView::InvalidProxyUrl { url: text }),
        Some(parts) => {
            let socks = parts.scheme == "socks5"@;
            let http = parts.scheme == "http"@ || parts.scheme == "https"@;
            if !socks && !http {
                Err(ConnectErrorView::UnsupportedScheme { scheme: parts.scheme })
            } else if parts.host is None || parts.port is None {
                Err(ConnectErrorView::InvalidProxyUrl { url: text })
            } else if socks {
                Ok(
                    ProxyView::Socks5 {
                        host: parts.host->0,
                        port: parts.port->0,
                        credentials: credentials_of(parts),
                    },
                )
            } else {
                Ok(
                    ProxyView::Http {
                        host: parts.host->0,
                        port: parts.port->0,
                        credentials: credentials_of(parts),
                    },
                )
            }
        },
    }
}

/// The proxy that the text of an address names; no text, no proxy.
pub open spec fn proxy_of(proxy: Option<Seq<char>>) -> Result<ProxyView, ConnectErrorView> {
    match proxy {
        None => Ok(ProxyView::Direct),
        Some(text) => proxy_from(text, parsed_url(text)),
    }
}

/// The way through a proxy to the service at `endpoint`, given what the
/// endpoint reads as.
///
/// The endpoint must be an address and hold a host; where it names no port
/// and its scheme has none, the port is 443.
pub open spec fn route_from(way: ProxyView, endpoint: Seq<char>, parts: Option<UrlPartsView>)
    -> Result<RouteView, ConnectErrorView> {
    match parts {
        Some(parts) => if parts.host is Some {
            Ok(
                RouteView {
                    proxy: way,
                    host: parts.host->0,
                    port: match parts.port {
                        Some(port) => port,
                        None => DEFAULT_PORT,
                    },
                },
            )
        } else {
            Err(ConnectErrorView::InvalidEndpoint { url: endpoint })
        },
        None => Err(ConnectErrorView::InvalidEndpoint { url: endpoint }),
    }
}

/// The way to the service at `endpoint` through the proxy named by `proxy`.
/// The proxy is looked at first.
pub open spec fn route_of(endpoint: Seq<char>, proxy: Option<Seq<char>>) -> Result<
    RouteView,
    ConnectErrorView,
> {
    match proxy_of(proxy) {
        Err(e) => Err(e),
        Ok(way) => route_from(way, endpoint, parsed_url(endpoint)),
    }
}

/// Whether an HTTP proxy that answers with `status` has opened the tunnel.
pub open spec fn tunnel_opened(status: u16) -> bool {
    200 <= status < 300
}

/// What a proxy or a route came to, as mathematical values.
pub open spec fn proxy_result_view(r: Result<Proxy, ConnectError>) -> Result<
    ProxyView,
    ConnectErrorView,
> {
    match r {
        Ok(proxy) => Ok(proxy@),
        Err(e) => Err(e@),
    }
}

/// What a route came to, as mathematical values.
pub open spec fn route_result_view(r: Result<Route, ConnectError>) -> Result<
    RouteView,
    ConnectErrorView,
> {
    match r {
        Ok(route) => Ok(route@),
        Err(e) => Err(e@),
    }
}

fn credentials(parts: &UrlParts) -> (r: Option<Credentials>)
    ensures
        match r {
            Some(c) => credentials_of(parts@) == Some(c@),
            None => credentials_of(parts@) is None,
        },
{
    let username = parts.username.clone();
    match &parts.password {
        Some(password) => Some(Credentials { username, password: password.clone() }),
        None => {
            if parts.username.as_str().is_empty() {
                None
            } else {
                Some(Credentials { username, password: String::new() })
            }
        },
    }
}

/// The parts of an address, or nothing, as mathematical values.
pub open spec fn parts_view(parts: Option<UrlParts>) -> Option<UrlPartsView> {
    match parts {
        Some(parts) => Some(parts@),
        None => None,
    }
}

/// Tells which proxy an address names, given the text of the address and
/// what it reads as.
pub fn proxy_from_parts(text: &str, parts: Option<UrlParts>) -> (r: Result<Proxy, ConnectError>)
    ensures
        proxy_result_view(r) == proxy_from(text@, parts_view(parts)),
{
    let parts = match parts {
        Some(parts) => parts,
        None => {
            return Err(ConnectError::InvalidProxyUrl { url: text.to_owned() });
        },
    };
    let socks = str_eq(parts.scheme.as_str(), "socks5");
    let http = str_eq(parts.scheme.as_str(), "http") || str_eq(parts.scheme.as_str(), "https");
    if !socks && !http {
        return Err(ConnectError::UnsupportedScheme { scheme: parts.scheme });
    }
    let credentials = credentials(&parts);
    match (parts.host, parts.port) {
        (Some(host), Some(port)) => {
            if socks {
                Ok(Proxy::Socks5 { host, port, credentials })
            } else {
                Ok(Proxy::Http { host, port, credentials })
            }
        },
        _ => Err(ConnectError::InvalidProxyUrl { url: text.to_owned() }),
    }
}

/// Makes the route through a proxy to the service, given the endpoint and
/// what it reads as.
pub fn route_from_parts(way: Proxy, endpoint: &str, parts: Option<UrlParts>) -> (r: Result<
    Route,
    ConnectError,
>)
    ensures
        route_result_view(r) == route_from(way@, endpoint@, parts_view(parts)),
{
    match parts {
        Some(parts) => match parts.host {
            Some(host) => {
                let port = match parts.port {
                    Some(port) => port,
                    None => DEFAULT_PORT,
                };
                Ok(Route { proxy: way, host, port })
            },
            None => Err(ConnectError::InvalidEndpoint { url: endpoint.to_owned() }),
        },
        None => Err(ConnectError::InvalidEndpoint { url: endpoint.to_owned() }),
    }
}

/// Reads an address, where it is one.
fn read_address(text: &str) -> (r: Option<UrlParts>)
    ensures
        parts_view(r) == parsed_url(text@),
{
    match url_parts(text) {
        Ok(parts) => Some(parts),
        Err(_) => None,
    }
}

/// Reads the address of a proxy.
pub fn parse_proxy(proxy: Option<&str>) -> (r: Result<Proxy, ConnectError>)
    ensures
        proxy_result_view(r) == proxy_of(
            match proxy {
                Some(text) => Some(text@),
                None => None,
            },
        ),
{
    match proxy {
        Some(text) => proxy_from_parts(text, read_address(text)),
        None => Ok(Proxy::Direct),
    }
}

/// Plans the way to the service.
pub fn plan_route(endpoint: &str, proxy: Option<&str>) -> (r: Result<Route, ConnectError>)
    ensures
        route_result_view(r) == route_of(
            endpoint@,
            match proxy {
                Some(text) => Some(text@),
                None => None,
            },
        ),
{
    match parse_proxy(proxy) {
        Ok(way) => route_from_parts(way, endpoint, read_address(endpoint)),
        Err(e) => Err(e),
    }
}

/// Holds the answer of an HTTP proxy to a request for a tunnel: any status
/// but a success refuses the tunnel.
pub fn check_connect_status(status: u16) -> (r: Result<(), ConnectError>)
    ensures
        r is Ok <==> tunnel_opened(status),
        r matches Err(e) ==> e@ == (ConnectErrorView::BadResponse { status }),
{
    if 200 <= status && status < 300 {
        Ok(())
    } else {
        Err(ConnectError::BadResponse { status })
    }
}

/// How a stream was established: the request that opened it, and the way
/// that was taken to the service.
#[derive(Clone, Debug, PartialEq, Eq)]
pub struct Handshake {
    pub request: ClientRequest,
    pub route: Route,
}

/// A handshake as mathematical values.
pub struct HandshakeView {
    pub request: ClientRequestView,
    pub route: RouteView,
}

impl View for Handshake {
    type V = HandshakeView;

    open spec fn view(&self) -> HandshakeView {
        HandshakeView { request: self.request@, route: self.route@ }
    }
}

/// An established stream, held in memory: how it was established, where that
/// is known, the text frames sent on it so far, and the events still to be
/// received from it, each in order.
#[derive(Debug)]
pub struct WsStream {
    pub handshake: Option<Handshake>,
    pub sent: Vec<String>,
    pub inbound: VecDeque<Event>,
}

/// A stream as mathematical values.
pub struct StreamView {
    pub handshake: Option<HandshakeView>,
    pub sent: Seq<Seq<char>>,
    pub inbound: Seq<EventView>,
}

/// The views of a run of events.
pub open spec fn event_views(events: Seq<Event>) -> Seq<EventView> {
    Seq::new(events.len(), |i: int| events[i]@)
}

impl View for WsStream {
    type V = StreamView;

    open spec fn view(&self) -> StreamView {
        StreamView {
            handshake: match self.handshake {
                Some(handshake) => Some(handshake@),
                None => None,
            },
            sent: self.sent.deep_view(),
            inbound: event_views(self.inbound@),
        }
    }
}

impl WsStream {
    /// A stream on which nothing was sent and nothing is to be received.
    pub fn new() -> (r: WsStream)
        ensures
            r@ == (StreamView { handshake: None, sent: Seq::empty(), inbound: Seq::empty() }),
    {
        let r = WsStream { handshake: None, sent: Vec::new(), inbound: VecDeque::new() };
        assert(r.sent.deep_view() =~= Seq::empty());
        assert(event_views(r.inbound@) =~= Seq::empty());
        r
    }

    /// A stream that the given handshake has established, on which nothing
    /// was sent and nothing is to be received.
    pub fn established(handshake: Handshake) -> (r: WsStream)
        ensures
            r@ == (StreamView {
                handshake: Some(handshake@),
                sent: Seq::empty(),
                inbound: Seq::empty(),
            }),
    {
        let r = WsStream { handshake: Some(handshake), sent: Vec::new(), inbound: VecDeque::new() };
        assert(r.sent.deep_view() =~= Seq::empty());
        assert(event_views(r.inbound@) =~= Seq::empty());
        r
    }

    /// Sends a text frame.
    pub fn send(&mut self, text: String)
        ensures
            final(self)@ == (StreamView { sent: old(self)@.sent.push(text@), ..old(self)@ }),
    {
        self.sent.push(text);
        assert(self.sent.deep_view() =~= old(self).sent.deep_view().push(text@));
    }

    /// Adds an event to those that the stream will deliver.
    pub fn feed(&mut self, event: Event)
        ensures
            final(self)@ == (StreamView { inbound: old(self)@.inbound.push(event@), ..old(self)@ }),
    {
        self.inbound.push_back(event);
        assert(event_views(self.inbound@) =~= event_views(old(self).inbound@).push(event@));
    }

    /// Receives the next event. A stream with nothing left has ended.
    pub fn next(&mut self) -> (event: Event)
        ensures
            final(self)@.sent == old(self)@.sent,
            final(self)@.handshake == old(self)@.handshake,
            old(self)@.inbound.len() == 0 ==> event@ == EventView::EndOfStream && final(self)@
                == old(self)@,
            old(self)@.inbound.len() > 0 ==> event@ == old(self)@.inbound[0] && final(self)@.inbound
                == old(self)@.inbound.drop_first(),
    {
        match self.inbound.pop_front() {
            Some(event) => {
                assert(event_views(self.inbound@) =~= event_views(old(self).inbound@).drop_first());
                event
            },
            None => {
                assert(event_views(self.inbound@) =~= event_views(old(self).inbound@));
                Event::EndOfStream
            },
        }
    }
}

} // verus!
