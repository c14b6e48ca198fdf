//! The causes that a synthesizer's error can carry.

use vstd::prelude::*;
use vstd::string::StringExecFns;
use crate::msg::DecodeError;
use crate::text::{decimal, decimal_string};
use crate::types::FormatError;

verus! {

/// `url::ParseError`, the error of the `url` crate's parser. Nothing is
/// claimed of its contents.
#[verifier::external_type_specification]
#[verifier::external_body]
pub struct ExUrlParseError(url::ParseError);

/// `hyper::header::InvalidHeaderValue`, the error with which a header value
/// is refused. Nothing is claimed of its contents.
#[verifier::external_type_specification]
#[verifier::external_body]
pub struct ExInvalidHeaderValue(hyper::header::InvalidHeaderValue);

/// `hyper::header::InvalidHeaderName`, the error with which a header name is
/// refused. Nothing is claimed of its contents.
#[verifier::external_type_specification]
#[verifier::external_body]
pub struct ExInvalidHeaderName(hyper::header::InvalidHeaderName);

/// What went wrong on an established stream, below the level of messages.
#[derive(Clone, Debug, PartialEq, Eq)]
pub enum TransportFault {
    /// The peer went away without the closing handshake.
    ResetWithoutClosingHandshake,
    /// The stream was used after it had been closed.
    AlreadyClosed,
    /// Reading from or writing to the stream failed.
    Io { detail: String },
    /// The peer broke the framing rules in some other way.
    Protocol { detail: String },
    /// Any other fault.
    Other { detail: String },
}

/// Why no stream to the service could be established.
#[derive(Clone, Debug, PartialEq, Eq)]
pub enum ConnectError {
    /// The proxy's address is no address, or names no host or no port.
    InvalidProxyUrl { url: String },
    /// The proxy's address names a kind of proxy that is not supported.
    UnsupportedScheme { scheme: String },
    /// The endpoint is no address, or names no host.
    InvalidEndpoint { url: String },
    /// A SOCKS5 proxy gave a malformed reply or refused the tunnel.
    Socks5 { detail: String },
    /// An HTTP proxy answered the request for a tunnel with this status.
    BadResponse { status: u16 },
    /// The connection, the TLS session or the upgrade failed.
    Connection { detail: String },
}

/// A `ConnectError` as mathematical values.
pub enum ConnectErrorView {
    InvalidProxyUrl { url: Seq<char> },
    UnsupportedScheme { scheme: Seq<char> },
    InvalidEndpoint { url: Seq<char> },
    Socks5 { detail: Seq<char> },
    BadResponse { status: u16 },
    Connection { detail: Seq<char> },
}

impl View for ConnectError {
    type V = ConnectErrorView;

    open spec fn view(&self) -> ConnectErrorView {
        match self {
            ConnectError::InvalidProxyUrl { url } => ConnectErrorView::InvalidProxyUrl { url: url@ },
            ConnectError::UnsupportedScheme { scheme } => ConnectErrorView::UnsupportedScheme {
                scheme: scheme@,
            },
            ConnectError::InvalidEndpoint { url } => ConnectErrorView::InvalidEndpoint { url: url@ },
            ConnectError::Socks5 { detail } => ConnectErrorView::Socks5 { detail: detail@ },
            ConnectError::BadResponse { status } => ConnectErrorView::BadResponse {
                status: *status,
            },
            ConnectError::Connection { detail } => ConnectErrorView::Connection {
                detail: detail@,
            },
        }
    }
}

/// What a `ConnectError` says of itself.
pub open spec fn connect_error_text(e: ConnectErrorView) -> Seq<char> {
    match e {
        ConnectErrorView::InvalidProxyUrl { url } => "Invalid proxy url: "@ + url,
        ConnectErrorView::UnsupportedScheme { scheme } => "Unsupported proxy scheme: "@ + scheme,
        ConnectErrorView::InvalidEndpoint { url } => "Invalid endpoint: "@ + url,
        ConnectErrorView::Socks5 { detail } => "SOCKS5 proxy error: "@ + detail,
        ConnectErrorView::BadResponse { status } => "The proxy refused the tunnel with status "@
            + decimal(status as nat),
        ConnectErrorView::Connection { detail } => "Connection error: "@ + detail,
    }
}

impl ConnectError {
    /// What the error says of itself.
    pub fn message(&self) -> (r: String)
        ensures
            r@ == connect_error_text(self@),
    {
        match self {
            ConnectError::InvalidProxyUrl { url } => String::from_str("Invalid proxy url: ").concat(
                url.as_str(),
            ),
            ConnectError::UnsupportedScheme { scheme } => String::from_str(
                "Unsupported proxy scheme: ",
            ).concat(scheme.as_str()),
            ConnectError::InvalidEndpoint { url } => String::from_str("Invalid endpoint: ").concat(
                url.as_str(),
            ),
            ConnectError::Socks5 { detail } => String::from_str("SOCKS5 proxy error: ").concat(
                detail.as_str(),
            ),
            ConnectError::BadResponse { status } => String::from_str(
                "The proxy refused the tunnel with status ",
            ).concat(decimal_string(*status).as_str()),
            ConnectError::Connection { detail } => String::from_str("Connection error: ").concat(
                detail.as_str(),
            ),
        }
    }
}

/// Why a text could not be made into an SSML document.
#[derive(Clone, Copy, Debug, PartialEq, Eq, Structural)]
pub enum SsmlError {
    /// A style degree was given, but no style.
    StyleDegreeWithoutStyle,
    /// A role was given, but no style.
    RoleWithoutStyle,
    /// The style degree, given in hundredths, is below 0.01 or above 2.
    StyleDegreeOutOfRange { hundredths: u16 },
}

/// The cause of a synthesizer's error, kept as it was found.
#[derive(Debug)]
pub enum ErrorSource {
    HeaderName(hyper::header::InvalidHeaderName),
    HeaderValue(hyper::header::InvalidHeaderValue),
    Url(url::ParseError),
    Connect(ConnectError),
    Transport(TransportFault),
    Ssml(SsmlError),
    Message(DecodeError),
    Format(FormatError),
}

} // verus!
