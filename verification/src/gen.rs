//! The values the service draws from outside: the random public identifier,
//! the parse of an externally supplied identifier, and the creation time.

use vstd::prelude::*;

verus! {

/// What `uuid::Uuid::parse_str` yields for a given string, read as the
/// 128-bit value of the parsed identifier (`None` where the string does not
/// parse).
pub uninterp spec fn parsed_user_id(s: Seq<char>) -> Option<u128>;

/// Relies on uuid's `Uuid::parse_str` (and `Uuid::as_u128`): whether a string
/// parses, and to which 128-bit value, depends on its characters alone.
#[verifier::external_body]
pub(crate) fn parse_user_id(s: &str) -> (r: Option<u128>)
    ensures
        r == parsed_user_id(s@),
{
    match uuid::Uuid::parse_str(s) {
        Ok(u) => Some(u.as_u128()),
        Err(_) => None,
    }
}

/// Relies on uuid's `Uuid::new_v4`: a fresh random identifier. Nothing is
/// assumed of the drawn value except that it is nonzero, which holds because
/// `new_v4` always sets the version and variant bits.
#[verifier::external_body]
pub(crate) fn fresh_user_id() -> (r: u128)
    ensures
        r != 0,
{
    uuid::Uuid::new_v4().as_u128()
}

/// Relies on chrono's `Local::now`: the server clock read as seconds.
/// Nothing is assumed of the value.
#[verifier::external_body]
pub(crate) fn now_timestamp() -> i64 {
    chrono::Local::now().naive_local().and_utc().timestamp()
}

} // verus!
