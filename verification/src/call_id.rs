//! Fresh identifiers for tool calls.

use vstd::prelude::*;

verus! {

/// A lowercase hexadecimal digit.
pub open spec fn is_lower_hex(c: char) -> bool {
    ('0' <= c && c <= '9') || ('a' <= c && c <= 'f')
}

/// The hyphenated lowercase text of a random (version 4, RFC 4122 variant)
/// UUID: 36 characters, hyphens at 8, 13, 18 and 23, hexadecimal digits
/// elsewhere, the version digit `4` at 14 and a variant digit of `8`, `9`,
/// `a` or `b` at 19.
pub open spec fn is_v4_uuid_text(s: Seq<char>) -> bool {
    &&& s.len() == 36
    &&& forall|i: int|
        0 <= i < 36 ==> if i == 8 || i == 13 || i == 18 || i == 23 {
            #[trigger] s[i] == '-'
        } else {
            is_lower_hex(s[i])
        }
    &&& s[14] == '4'
    &&& (s[19] == '8' || s[19] == '9' || s[19] == 'a' || s[19] == 'b')
}

/// A new random call id, or `None` when the system's random source fails.
///
/// Trusted: sixteen bytes come from `getrandom::fill`, which reports a
/// failure of the random source as an error rather than panicking;
/// `uuid::Builder::from_random_bytes` sets the version-4 and RFC 4122
/// variant bits, and the uuid's `Display` writes the hyphenated lowercase
/// form. The contract claims that shape. Which id comes back is chance, and
/// nothing is claimed of it beyond the shape.
#[verifier::external_body]
pub(crate) fn fresh_call_id() -> (id: Option<String>)
    ensures
        id matches Some(s) ==> is_v4_uuid_text(s@),
{
    let mut bytes = [0u8; 16];
    match getrandom::fill(&mut bytes) {
        Ok(()) => Some(uuid::Builder::from_random_bytes(bytes).into_uuid().to_string()),
        Err(_) => None,
    }
}

} // verus!
