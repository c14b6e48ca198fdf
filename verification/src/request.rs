//! The request with which a connection to the service is opened.

use vstd::prelude::*;
use vstd::string::{StringExecFns, StringSliceAdditionalSpecFns};
use vstd::utf8::encode_utf8;
use crate::address::{pairs_size, url_with_params, url_with_query, MAX_URL_INPUT};
use crate::constants::ORIGIN;
use crate::errors::ErrorSource;
use crate::synthesizer::websocket::{ErrorKindView, WebsocketSynthesizerError};
use crate::types::AuthOptions;

verus! {

/// The request that opens a connection: the address to ask for, and the
/// headers to send beside those of the upgrade itself.
#[derive(Clone, Debug, PartialEq, Eq)]
pub struct ClientRequest {
    pub uri: String,
    pub headers: Vec<(String, String)>,
}

/// A request as mathematical values.
pub struct ClientRequestView {
    pub uri: Seq<char>,
    pub headers: Seq<(Seq<char>, Seq<char>)>,
}

impl View for ClientRequest {
    type V = ClientRequestView;

    open spec fn view(&self) -> ClientRequestView {
        ClientRequestView { uri: self.uri@, headers: self.headers.deep_view() }
    }
}

/// Authentication options as mathematical values.
pub struct AuthView {
    pub endpoint: Seq<char>,
    pub token: Option<Seq<char>>,
    pub key: Option<Seq<char>>,
    pub headers: Seq<(Seq<char>, Seq<char>)>,
    pub proxy: Option<Seq<char>>,
}

impl View for AuthOptions {
    type V = AuthView;

    open spec fn view(&self) -> AuthView {
        AuthView {
            endpoint: self.endpoint@,
            token: self.token.deep_view(),
            key: self.key.deep_view(),
            headers: self.headers.deep_view(),
            proxy: self.proxy.deep_view(),
        }
    }
}

/// A byte that a header's value may hold: a tab, or anything from the space
/// on but DEL.
pub open spec fn is_header_value_byte(b: u8) -> bool {
    (b >= 32 && b != 127) || b == 9
}

/// The bytes of a header's value.
pub open spec fn is_header_value(bytes: Seq<u8>) -> bool {
    forall|i: int| 0 <= i < bytes.len() ==> is_header_value_byte(#[trigger] bytes[i])
}

/// Whether `hyper::header::HeaderName::from_bytes` takes the bytes as the
/// name of a header.
pub uninterp spec fn header_name_accepted(name: Seq<u8>) -> bool;

/// Holds a header's value to `hyper::header::HeaderValue::from_str`.
///
/// From the crate's source: the value is refused if and only if one of its
/// bytes is below 32 and no tab, or is 127.
#[verifier::external_body]
pub(crate) fn check_header_value(value: &str) -> (r: Result<
    (),
    hyper::header::InvalidHeaderValue,
>)
    ensures
        r is Ok <==> is_header_value(value.spec_bytes()),
{
    hyper::header::HeaderValue::from_str(value).map(|_| ())
}

/// Holds a header's name to `hyper::header::HeaderName::from_bytes`.
///
/// Which names the crate takes is laid down in a table in its source; the
/// answer only has a name here.
#[verifier::external_body]
pub(crate) fn check_header_name(name: &str) -> (r: Result<(), hyper::header::InvalidHeaderName>)
    ensures
        r is Ok <==> header_name_accepted(name.spec_bytes()),
{
    hyper::header::HeaderName::from_bytes(name.as_bytes()).map(|_| ())
}

/// What is wrong with the options that a request is made from.
pub enum RequestFault {
    /// The endpoint is no absolute address.
    Endpoint,
    /// A header's name is none.
    HeaderName,
    /// A header's value, or the subscription key, cannot be sent in a header.
    HeaderValue,
}

/// The pairs that a request adds to the query of the endpoint: the
/// connection's identifier, and the token where there is one.
pub open spec fn query_pairs(auth: AuthView, connection_id: Seq<char>) -> Seq<
    (Seq<char>, Seq<char>),
> {
    match auth.token {
        Some(token) => seq![("X-ConnectionId"@, connection_id), ("Authorization"@, token)],
        None => seq![("X-ConnectionId"@, connection_id)],
    }
}

/// The headers of a request: the subscription key where there is one,
/// else the caller's own headers where there are any, else the origin of the
/// trial service.
pub open spec fn request_headers(auth: AuthView) -> Seq<(Seq<char>, Seq<char>)> {
    match auth.key {
        Some(key) => seq![("Ocp-Apim-Subscription-Key"@, key)],
        None => if auth.headers.len() > 0 {
            auth.headers
        } else {
            seq![("Origin"@, ORIGIN@)]
        },
    }
}

/// What is wrong with the first of the headers that cannot be sent.
pub open spec fn first_header_fault(headers: Seq<(Seq<char>, Seq<char>)>) -> Option<RequestFault>
    decreases headers.len(),
{
    if headers.len() == 0 {
        None
    } else if !header_name_accepted(encode_utf8(headers[0].0)) {
        Some(RequestFault::HeaderName)
    } else if !is_header_value(encode_utf8(headers[0].1)) {
        Some(RequestFault::HeaderValue)
    } else {
        first_header_fault(headers.drop_first())
    }
}

/// What is wrong with the options, if anything: the endpoint is looked at
/// first, then the key, or else the caller's headers in their order.
pub open spec fn request_fault(auth: AuthView, connection_id: Seq<char>) -> Option<RequestFault> {
    if url_with_query(auth.endpoint, query_pairs(auth, connection_id)) is None {
        Some(RequestFault::Endpoint)
    } else {
        match auth.key {
            Some(key) => if is_header_value(encode_utf8(key)) {
                None
            } else {
                Some(RequestFault::HeaderValue)
            },
            None => first_header_fault(auth.headers),
        }
    }
}

/// The request that the options make for a connection with the given
/// identifier.
pub open spec fn client_request(auth: AuthView, connection_id: Seq<char>) -> ClientRequestView {
    ClientRequestView {
        uri: url_with_query(auth.endpoint, query_pairs(auth, connection_id))->0,
        headers: request_headers(auth),
    }
}

/// The error that tells of a fault in the options: an invalid request, with
/// the outside error as its cause.
pub open spec fn tells_of(e: WebsocketSynthesizerError, fault: RequestFault) -> bool {
    &&& e@.kind == ErrorKindView::InvalidRequest
    &&& match fault {
        RequestFault::Endpoint => e.source matches Some(ErrorSource::Url(_)),
        RequestFault::HeaderName => e.source matches Some(ErrorSource::HeaderName(_)),
        RequestFault::HeaderValue => e.source matches Some(ErrorSource::HeaderValue(_)),
    }
}

/// The options are small enough for an address to be made of them.
pub open spec fn fits_address(auth: AuthView, connection_id: Seq<char>) -> bool {
    encode_utf8(auth.endpoint).len() + pairs_size(query_pairs(auth, connection_id))
        <= MAX_URL_INPUT
}

/// Holds the caller's headers to the rules for names and values.
fn check_headers(headers: &Vec<(String, String)>) -> (r: Result<(), WebsocketSynthesizerError>)
    ensures
        match r {
            Ok(_) => first_header_fault(headers.deep_view()) is None,
            Err(e) => first_header_fault(headers.deep_view()) matches Some(fault) && tells_of(
                e,
                fault,
            ),
        },
{
    let mut i: usize = 0;
    let ghost all = headers.deep_view();
    assert(all.subrange(0, all.len() as int) =~= all);
    while i < headers.len()
        invariant
            i <= headers.len(),
            all == headers.deep_view(),
            first_header_fault(all) == first_header_fault(all.subrange(i as int, all.len() as int)),
        decreases headers.len() - i,
    {
        let ghost rest = all.subrange(i as int, all.len() as int);
        assert(rest[0] == all[i as int]);
        assert(rest.drop_first() =~= all.subrange(i + 1, all.len() as int));
        match check_header_name(headers[i].0.as_str()) {
            Ok(_) => {},
            Err(e) => {
                return Err(WebsocketSynthesizerError::from(e));
            },
        }
        match check_header_value(headers[i].1.as_str()) {
            Ok(_) => {},
            Err(e) => {
                return Err(WebsocketSynthesizerError::from(e));
            },
        }
        i += 1;
    }
    Ok(())
}

/// Copies the caller's headers, in their order.
fn copy_headers(headers: &Vec<(String, String)>) -> (r: Vec<(String, String)>)
    ensures
        r.deep_view() == headers.deep_view(),
{
    let mut copy: Vec<(String, String)> = Vec::new();
    let mut i: usize = 0;
    while i < headers.len()
        invariant
            i <= headers.len(),
            copy.len() == i,
            forall|j: int| 0 <= j < i ==> copy[j].deep_view() == headers[j].deep_view(),
        decreases headers.len() - i,
    {
        copy.push((headers[i].0.clone(), headers[i].1.clone()));
        i += 1;
    }
    assert(copy.deep_view() =~= headers.deep_view());
    copy
}

/// Makes the pairs that a request adds to the query of the endpoint.
pub fn query_pairs_for(auth: &AuthOptions, connection_id: &str) -> (r: Vec<(String, String)>)
    ensures
        r.deep_view() == query_pairs(auth@, connection_id@),
{
    let mut pairs: Vec<(String, String)> = Vec::new();
    pairs.push((String::from_str("X-ConnectionId"), String::from_str(connection_id)));
    match &auth.token {
        Some(token) => {
            pairs.push((String::from_str("Authorization"), token.clone()));
        },
        None => {},
    }
    assert(pairs.deep_view() =~= query_pairs(auth@, connection_id@));
    pairs
}

/// Chooses the headers of a request.
pub fn request_headers_for(auth: &AuthOptions) -> (r: Vec<(String, String)>)
    ensures
        r.deep_view() == request_headers(auth@),
{
    let mut headers: Vec<(String, String)> = Vec::new();
    match &auth.key {
        Some(key) => {
            headers.push((String::from_str("Ocp-Apim-Subscription-Key"), key.clone()));
        },
        None => {
            if auth.headers.len() > 0 {
                headers = copy_headers(&auth.headers);
            } else {
                assert(auth.headers.deep_view() =~= Seq::empty());
                headers.push((String::from_str("Origin"), String::from_str(ORIGIN)));
            }
        },
    }
    assert(headers.deep_view() =~= request_headers(auth@));
    headers
}

/// Makes the request that opens a connection with the given identifier.
///
/// Nothing is sent where the endpoint is no address, or a header cannot be
/// sent: the error is an invalid request.
pub fn client_request_for(auth: &AuthOptions, connection_id: &str) -> (r: Result<
    ClientRequest,
    WebsocketSynthesizerError,
>)
    requires
        fits_address(auth@, connection_id@),
    ensures
        match r {
            Ok(request) => request_fault(auth@, connection_id@) is None && request@
                == client_request(auth@, connection_id@),
            Err(e) => request_fault(auth@, connection_id@) matches Some(fault) && tells_of(
                e,
                fault,
            ),
        },
{
    let pairs = query_pairs_for(auth, connection_id);
    let uri = match url_with_params(auth.endpoint.as_str(), &pairs) {
        Ok(uri) => uri,
        Err(e) => {
            return Err(WebsocketSynthesizerError::from(e));
        },
    };
    match &auth.key {
        Some(key) => {
            match check_header_value(key.as_str()) {
                Ok(_) => {},
                Err(e) => {
                    return Err(WebsocketSynthesizerError::from(e));
                },
            }
        },
        None => {
            match check_headers(&auth.headers) {
                Ok(_) => {},
                Err(e) => {
                    return Err(e);
                },
            }
        },
    }
    Ok(ClientRequest { uri, headers: request_headers_for(auth) })
}

} // verus!
