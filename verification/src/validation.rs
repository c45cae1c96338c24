//! The rules that request fields are held to before any state is touched.

use crate::text::{
    contains_char,
    is_alphanumeric,
    is_lowercase,
    is_numeric,
    is_uppercase,
    unicode_alphanumeric,
    unicode_lowercase,
    unicode_numeric,
    unicode_uppercase,
};
use vstd::prelude::*;

verus! {

/// The least length of a password, in bytes of its UTF-8 form.
pub const MIN_PASSWORD_BYTES: usize = 8;

/// An address is taken as well-formed if it holds an `@` and a dot.
pub open spec fn valid_email(email: Seq<char>) -> bool {
    email.contains('@') && email.contains('.')
}

/// A password is strong if its UTF-8 form has at least
/// [`MIN_PASSWORD_BYTES`] bytes and it holds an upper-case character, a
/// lower-case one, a numeric one, and one that is neither letter nor
/// number.
pub open spec fn strong_password(password: Seq<char>) -> bool {
    &&& vstd::utf8::encode_utf8(password).len() >= MIN_PASSWORD_BYTES
    &&& exists|i: int| 0 <= i < password.len() && unicode_uppercase(#[trigger] password[i])
    &&& exists|i: int| 0 <= i < password.len() && unicode_lowercase(#[trigger] password[i])
    &&& exists|i: int| 0 <= i < password.len() && unicode_numeric(#[trigger] password[i])
    &&& exists|i: int| 0 <= i < password.len() && !unicode_alphanumeric(#[trigger] password[i])
}

/// Which character classes a text holds.
#[derive(Clone, Copy, Debug, PartialEq, Eq, Structural)]
pub struct CharClasses {
    pub upper: bool,
    pub lower: bool,
    pub digit: bool,
    pub special: bool,
}

/// The character classes that a text holds.
pub open spec fn spec_classes(text: Seq<char>) -> CharClasses {
    CharClasses {
        upper: exists|i: int| 0 <= i < text.len() && unicode_uppercase(#[trigger] text[i]),
        lower: exists|i: int| 0 <= i < text.len() && unicode_lowercase(#[trigger] text[i]),
        digit: exists|i: int| 0 <= i < text.len() && unicode_numeric(#[trigger] text[i]),
        special: exists|i: int| 0 <= i < text.len() && !unicode_alphanumeric(#[trigger] text[i]),
    }
}

/// The password rule, given the length in bytes and the classes found:
/// long enough, and every class there.
pub open spec fn spec_meets_policy(byte_len: nat, classes: CharClasses) -> bool {
    byte_len >= MIN_PASSWORD_BYTES && classes.upper && classes.lower && classes.digit
        && classes.special
}

/// Whether a password of this length in bytes, with these character
/// classes, is strong enough.
pub fn meets_policy(byte_len: usize, classes: CharClasses) -> (r: bool)
    ensures
        r == spec_meets_policy(byte_len as nat, classes),
{
    byte_len >= MIN_PASSWORD_BYTES && classes.upper && classes.lower && classes.digit
        && classes.special
}

/// A password is strong exactly if it meets the policy with its own length
/// and classes.
pub proof fn lemma_strong_password_is_policy(password: Seq<char>)
    ensures
        strong_password(password) == spec_meets_policy(
            vstd::utf8::encode_utf8(password).len(),
            spec_classes(password),
        ),
{
}

/// Finds the character classes of a text.
pub fn classes_of(text: &str) -> (r: CharClasses)
    ensures
        r == spec_classes(text@),
{
    let n = text.unicode_len();
    let mut upper = false;
    let mut lower = false;
    let mut digit = false;
    let mut special = false;
    let mut i: usize = 0;
    while i < n
        invariant
            n == text@.len(),
            i <= n,
            upper == exists|k: int| 0 <= k < i && unicode_uppercase(#[trigger] text@[k]),
            lower == exists|k: int| 0 <= k < i && unicode_lowercase(#[trigger] text@[k]),
            digit == exists|k: int| 0 <= k < i && unicode_numeric(#[trigger] text@[k]),
            special == exists|k: int| 0 <= k < i && !unicode_alphanumeric(#[trigger] text@[k]),
        decreases n - i,
    {
        let c = text.get_char(i);
        let ghost at = i as int;
        if is_uppercase(c) {
            upper = true;
            assert(unicode_uppercase(text@[at]));
        }
        if is_lowercase(c) {
            lower = true;
            assert(unicode_lowercase(text@[at]));
        }
        if is_numeric(c) {
            digit = true;
            assert(unicode_numeric(text@[at]));
        }
        if !is_alphanumeric(c) {
            special = true;
            assert(!unicode_alphanumeric(text@[at]));
        }
        i += 1;
    }
    CharClasses { upper, lower, digit, special }
}

/// Whether an address is well-formed.
pub fn is_valid_email(email: &str) -> (r: bool)
    ensures
        r == valid_email(email@),
{
    contains_char(email, '@') && contains_char(email, '.')
}

/// Whether a password is strong enough to be accepted.
pub fn is_strong_password(password: &str) -> (r: bool)
    ensures
        r == strong_password(password@),
{
    meets_policy(password.as_bytes().len(), classes_of(password))
}

} // verus!
