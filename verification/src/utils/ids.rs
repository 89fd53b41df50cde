//! Fresh identifiers.
use vstd::prelude::*;

verus! {

/// Whether `c` is a lower-case hexadecimal digit.
pub open spec fn is_lower_hex(c: char) -> bool {
    ('0' <= c <= '9') || ('a' <= c <= 'f')
}

/// Whether `s` has the hyphenated lower-case form of a random (version 4,
/// RFC 4122 variant) UUID, as `xxxxxxxx-xxxx-4xxx-yxxx-xxxxxxxxxxxx` with `y`
/// one of `8`, `9`, `a`, `b`.
pub open spec fn is_uuid_text(s: Seq<char>) -> bool {
    &&& s.len() == 36
    &&& s[14] == '4'
    &&& (s[19] == '8' || s[19] == '9' || s[19] == 'a' || s[19] == 'b')
    &&& forall|i: int|
        0 <= i < 36 ==> if i == 8 || i == 13 || i == 18 || i == 23 {
            s[i] == '-'
        } else {
            is_lower_hex(#[trigger] s[i])
        }
}

/// A fresh random identifier.
/// Trusted: `uuid::Uuid::new_v4` draws a random UUID and sets its version
/// digit to 4 and its variant bits to RFC 4122 (the digit after the third
/// hyphen is 8, 9, a or b); its `Display` writes it hyphenated in lower case.
/// Which UUID is drawn is not stated.
#[verifier::external_body]
pub(crate) fn new_uuid() -> (s: String)
    ensures
        is_uuid_text(s@),
{
    uuid::Uuid::new_v4().to_string()
}

} // verus!
