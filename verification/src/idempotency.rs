//! Idempotency keys: texts of UUIDs drawn at random.

use vstd::prelude::*;
use uuid::Uuid;

verus! {

/// Whether `c` is a digit or a lower-case letter from `a` to `f`.
pub open spec fn is_lower_hex(c: char) -> bool {
    ('0' <= c && c <= '9') || ('a' <= c && c <= 'f')
}

/// Whether `s` is the hyphenated lower-case text of a version 4 UUID:
/// 36 characters, `-` at 8, 13, 18 and 23, hex digits elsewhere, the
/// version `4` at 14 and one of `8`, `9`, `a`, `b` at 19.
pub open spec fn is_uuid_v4_text(s: Seq<char>) -> bool {
    &&& s.len() == 36
    &&& forall|i: int|
        0 <= i < 36 ==> if i == 8 || i == 13 || i == 18 || i == 23 {
            s[i] == '-'
        } else {
            is_lower_hex(#[trigger] s[i])
        }
    &&& s[14] == '4'
    &&& (s[19] == '8' || s[19] == '9' || s[19] == 'a' || s[19] == 'b')
}

/// The text of a UUID drawn by `Uuid::new_v4`. Its field is private, and
/// `new_idempotency_key` is the only place that makes one, so every key
/// comes from a fresh draw.
pub struct IdempotencyKey {
    text: String,
}

impl IdempotencyKey {
    /// The text of the key.
    pub closed spec fn text(self) -> Seq<char> {
        self.text@
    }

    /// The text of the key as a string.
    pub fn into_string(self) -> (r: String)
        ensures
            r@ == self.text(),
    {
        self.text
    }
}

/// Calls `uuid::Uuid::new_v4` and formats the result with `to_string`.
/// Claimed, as the crate's source shows: the text is the hyphenated
/// lower-case form of a UUID whose version is 4 and whose variant is that of
/// RFC 4122. The value itself is random and is not stated.
#[verifier::external_body]
pub(crate) fn new_idempotency_key() -> (key: IdempotencyKey)
    ensures
        is_uuid_v4_text(key.text()),
{
    IdempotencyKey { text: Uuid::new_v4().to_string() }
}

} // verus!
