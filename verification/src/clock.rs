//! The wall clock, read in whole seconds since the Unix epoch.

use crate::lockout::MAX_TIMESTAMP;
use vstd::prelude::*;

verus! {

/// `chrono::Utc::now().timestamp()`: the clock's reading. Nothing is
/// claimed of it. Like `Utc::now` itself it panics on a machine whose clock
/// stands before 1970; no argument could rule that out.
#[verifier::external_body]
fn utc_now_seconds() -> i64 {
    chrono::Utc::now().timestamp()
}

/// `chrono::Utc::now().to_rfc3339()`: the clock's reading as an RFC 3339
/// text. Nothing is claimed of it. Like `Utc::now` itself it panics on a
/// machine whose clock stands before 1970.
#[verifier::external_body]
pub(crate) fn utc_now_rfc3339() -> String {
    chrono::Utc::now().to_rfc3339()
}

/// A clock reading as a timestamp of the library: refused where it lies
/// before the epoch or beyond [`MAX_TIMESTAMP`].
pub fn timestamp_from(seconds: i64) -> (r: Option<u64>)
    ensures
        r == if 0 <= seconds && seconds <= MAX_TIMESTAMP {
            Some(seconds as u64)
        } else {
            None
        },
{
    if seconds < 0 {
        None
    } else {
        let t = seconds as u64;
        if t <= MAX_TIMESTAMP {
            Some(t)
        } else {
            None
        }
    }
}

/// The current time, if the clock gives one the library can work with.
pub fn now() -> (r: Option<u64>)
    ensures
        r matches Some(t) ==> t <= MAX_TIMESTAMP,
{
    timestamp_from(utc_now_seconds())
}

} // verus!
