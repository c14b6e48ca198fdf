//! Addresses, as the `url` crate reads them.

use vstd::prelude::*;
use vstd::string::StringSliceAdditionalSpecFns;
use vstd::utf8::encode_utf8;

verus! {

/// What an address holds, as far as a connection needs it.
#[derive(Clone, Debug, PartialEq, Eq)]
pub struct UrlParts {
    pub scheme: String,
    pub host: Option<String>,
    /// The port that the address names, or else the port of its scheme.
    pub port: Option<u16>,
    /// The user name, percent-encoded; empty where the address has none.
    pub username: String,
    /// The password, percent-encoded.
    pub password: Option<String>,
}

/// The parts of an address as mathematical values.
pub struct UrlPartsView {
    pub scheme: Seq<char>,
    pub host: Option<Seq<char>>,
    pub port: Option<u16>,
    pub username: Seq<char>,
    pub password: Option<Seq<char>>,
}

impl View for UrlParts {
    type V = UrlPartsView;

    open spec fn view(&self) -> UrlPartsView {
        UrlPartsView {
            scheme: self.scheme@,
            host: match self.host {
                Some(host) => Some(host@),
                None => None,
            },
            port: self.port,
            username: self.username@,
            password: match self.password {
                Some(password) => Some(password@),
                None => None,
            },
        }
    }
}

/// The parts of the address that `text` is, or nothing where `text` is no
/// absolute address: the result of `url::Url::parse`, read through
/// `Url::scheme`, `Url::host_str`, `Url::port_or_known_default`,
/// `Url::username` and `Url::password`.
pub uninterp spec fn parsed_url(text: Seq<char>) -> Option<UrlPartsView>;

/// The address `text` with the given pairs added to its query, or nothing
/// where `text` is no absolute address: the result of
/// `url::Url::parse_with_params`, as text.
pub uninterp spec fn url_with_query(text: Seq<char>, pairs: Seq<(Seq<char>, Seq<char>)>) -> Option<
    Seq<char>,
>;

/// The number of bytes of the names and values of the given pairs.
pub open spec fn pairs_size(pairs: Seq<(Seq<char>, Seq<char>)>) -> nat
    decreases pairs.len(),
{
    if pairs.len() == 0 {
        0
    } else {
        encode_utf8(pairs[0].0).len() + encode_utf8(pairs[0].1).len() + pairs_size(
            pairs.drop_first(),
        )
    }
}

/// The greatest number of bytes that an address and the pairs added to its
/// query may have together.
pub const MAX_URL_INPUT: usize = 0x100_0000;

/// Reads an address with `url::Url::parse` and takes its parts with
/// `Url::scheme`, `Url::host_str`, `Url::port_or_known_default`,
/// `Url::username` and `Url::password`.
///
/// The parser takes any text, and answers what is no absolute address with
/// its error. What it makes of an address takes pages to say, so the result
/// only has a name: the same text always reads the same.
#[verifier::external_body]
pub(crate) fn url_parts(text: &str) -> (r: Result<UrlParts, url::ParseError>)
    ensures
        match r {
            Ok(parts) => parsed_url(text@) == Some(parts@),
            Err(_) => parsed_url(text@) is None,
        },
{
    let url = url::Url::parse(text)?;
    Ok(
        UrlParts {
            scheme: url.scheme().to_string(),
            host: url.host_str().map(str::to_string),
            port: url.port_or_known_default(),
            username: url.username().to_string(),
            password: url.password().map(str::to_string),
        },
    )
}

/// Adds pairs to the query of an address with
/// `url::Url::parse_with_params`, and gives the address as text.
///
/// The crate counts the bytes of an address in 32 bits and panics where the
/// address with its query outgrows them; the bound on the input keeps every
/// address far below that, whatever the parser escapes. The result only has a
/// name: the same input always gives the same address.
#[verifier::external_body]
pub(crate) fn url_with_params(text: &str, pairs: &Vec<(String, String)>) -> (r: Result<
    String,
    url::ParseError,
>)
    requires
        text.spec_bytes().len() + pairs_size(pairs.deep_view()) <= MAX_URL_INPUT,
        pairs.len() <= MAX_URL_INPUT,
    ensures
        match r {
            Ok(address) => url_with_query(text@, pairs.deep_view()) == Some(address@),
            Err(_) => url_with_query(text@, pairs.deep_view()) is None,
        },
{
    url::Url::parse_with_params(text, pairs).map(String::from)
}

} // verus!
