//! Fresh record identifiers.
use vstd::prelude::*;

verus! {

/// A lowercase hexadecimal digit.
pub open spec fn is_lower_hex_digit(ch: char) -> bool {
    (0x30 <= (ch as u32) && (ch as u32) <= 0x39) || (0x61 <= (ch as u32) && (ch as u32) <= 0x66)
}

/// The hyphenated, lowercase text of a random (version 4, RFC 4122 variant)
/// UUID, such as `67e55044-10b1-426f-9247-bb680e5fe0c8`.
pub open spec fn is_hyphenated_uuid_v4(s: Seq<char>) -> bool {
    &&& s.len() == 36
    &&& forall|i: int|
        0 <= i < 36 ==> if i == 8 || i == 13 || i == 18 || i == 23 {
            #[trigger] s[i] == '-'
        } else {
            is_lower_hex_digit(s[i])
        }
    &&& s[14] == '4'
    &&& (s[19] == '8' || s[19] == '9' || s[19] == 'a' || s[19] == 'b')
}

/// Calls `uuid::Uuid::new_v4` and renders it with `to_string`. The uuid crate
/// masks the version nibble to 4 and the variant bits to `10`, and its
/// `Display` writes the 36-character hyphenated lowercase form. Which random
/// value comes out is not stated.
#[verifier::external_body]
pub(crate) fn new_uuid_v4_text() -> (id: String)
    ensures
        is_hyphenated_uuid_v4(id@),
{
    uuid::Uuid::new_v4().to_string()
}

} // verus!
