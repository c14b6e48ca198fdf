//! Request identifiers and timestamps, which every outbound message carries.

use vstd::prelude::*;

verus! {

/// A digit, or a letter from `a` to `f`.
pub open spec fn is_lower_hex(c: char) -> bool {
    ('0' <= c <= '9') || ('a' <= c <= 'f')
}

/// A request identifier: 32 lower-case hexadecimal digits, nothing between
/// them.
pub open spec fn is_request_id(s: Seq<char>) -> bool {
    &&& s.len() == 32
    &&& forall|i: int| 0 <= i < s.len() ==> is_lower_hex(#[trigger] s[i])
}

/// A character that a timestamp is written with.
pub open spec fn is_timestamp_char(c: char) -> bool {
    ('0' <= c <= '9') || c == '-' || c == '+' || c == ':' || c == '.' || c == 'T' || c == 'Z'
}

/// A timestamp in the manner of RFC 3339: a date, `T`, a time of day and `Z`,
/// of which only the characters are fixed here.
pub open spec fn is_timestamp(s: Seq<char>) -> bool {
    &&& s.len() > 0
    &&& forall|i: int| 0 <= i < s.len() ==> is_timestamp_char(#[trigger] s[i])
}

/// A fresh request identifier: `uuid::Uuid::new_v4`, written by
/// `Uuid::as_simple`.
///
/// The identifier is random, so the contract fixes its form only: the simple
/// format is the 16 bytes in lower-case hexadecimal without hyphens. The call
/// panics where the operating system gives no random bytes.
#[verifier::external_body]
pub(crate) fn fresh_request_id() -> (r: String)
    ensures
        is_request_id(r@),
{
    uuid::Uuid::new_v4().as_simple().to_string()
}

/// The current time: `chrono::Utc::now`, written as `Debug` writes a
/// `DateTime<Utc>`.
///
/// The result depends on the clock, so the contract fixes its form only: the
/// date is written with digits, a sign and hyphens, then `T`, then the time
/// with digits, colons and a dot, then `Z`. The call panics where the clock
/// stands before 1970.
#[verifier::external_body]
pub(crate) fn timestamp_now() -> (r: String)
    ensures
        is_timestamp(r@),
{
    format!("{:?}", chrono::Utc::now())
}

} // verus!
