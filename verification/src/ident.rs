//! Fresh names for working directories. They come from random numbers, so
//! nothing is known of a name but its shape.

use rand::Rng;
use vstd::prelude::*;

verus! {

/// Whether `c` is a digit or one of the letters `a` to `f`.
pub open spec fn is_lower_hex(c: char) -> bool {
    ('0' <= c <= '9') || ('a' <= c <= 'f')
}

/// Whether `s` has the shape of a UUID in hyphenated lower-case form:
/// 36 characters, hyphens at the four places, hexadecimal digits elsewhere.
pub open spec fn is_hyphenated_uuid(s: Seq<char>) -> bool {
    &&& s.len() == 36
    &&& forall|i: int|
        0 <= i < 36 ==> if i == 8 || i == 13 || i == 18 || i == 23 {
            #[trigger] s[i] == '-'
        } else {
            is_lower_hex(s[i])
        }
}

/// Whether `c` is an ASCII letter or digit.
pub open spec fn is_ascii_alphanumeric(c: char) -> bool {
    ('0' <= c <= '9') || ('a' <= c <= 'z') || ('A' <= c <= 'Z')
}

/// Whether `s` is made of `len` ASCII letters and digits.
pub open spec fn is_alphanumeric_name(s: Seq<char>, len: nat) -> bool {
    &&& s.len() == len
    &&& forall|i: int| 0 <= i < s.len() ==> is_ascii_alphanumeric(#[trigger] s[i])
}

/// A random version-4 UUID, written out: `uuid::Uuid::new_v4` followed by
/// `to_string`. The contract claims the shape that the crate's formatter
/// gives every UUID, and nothing of the digits. The call needs the operating
/// system's random source and gives up when that is not there.
#[verifier::external_body]
pub(crate) fn fresh_uuid() -> (r: String)
    ensures
        is_hyphenated_uuid(r@),
{
    uuid::Uuid::new_v4().to_string()
}

/// `len` random characters from `rand::Rng::gen_ascii_chars`, drawn with
/// `rand::thread_rng`. The contract claims what the generator's alphabet
/// shows: letters and digits of ASCII, and as many as were asked for. The call
/// needs a source of entropy and gives up when there is none.
#[verifier::external_body]
pub(crate) fn random_name(len: usize) -> (r: String)
    ensures
        is_alphanumeric_name(r@, len as nat),
{
    rand::thread_rng().gen_ascii_chars().take(len).collect()
}

} // verus!
