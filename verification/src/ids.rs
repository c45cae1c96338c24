//! Fresh identifiers and opaque tokens.

use vstd::prelude::*;

verus! {

/// `uuid::Uuid::new_v4().to_string()`: a random version-4 UUID in its
/// hyphenated form. It differs from call to call; nothing is claimed of it,
/// and the stores check for themselves that an identifier is new. Like
/// `new_v4` itself it panics where the operating system has no random bytes
/// to give; no argument could rule that out.
#[verifier::external_body]
pub(crate) fn random_uuid() -> String {
    uuid::Uuid::new_v4().to_string()
}

} // verus!
