use vstd::prelude::*;

verus! {

/// A lowercase hexadecimal digit.
pub open spec fn is_lower_hex_digit(c: char) -> bool {
    ('0' <= c && c <= '9') || ('a' <= c && c <= 'f')
}

/// The canonical hyphenated text of a version-4 UUID: 36 characters, hyphens at
/// offsets 8, 13, 18 and 23, lowercase hex digits elsewhere, and the version
/// digit `4` at offset 14.
pub open spec fn is_uuid_text(s: Seq<char>) -> bool {
    &&& s.len() == 36
    &&& forall|i: int|
        0 <= i < 36 ==> if i == 8 || i == 13 || i == 18 || i == 23 {
            #[trigger] s[i] == '-'
        } else {
            is_lower_hex_digit(s[i])
        }
    &&& s[14] == '4'
}

/// Relies on uuid's `Uuid::new_v4` (random bits with the version nibble set
/// to 4) and on the `Display` impl of `Hyphenated`, which writes the 16 bytes
/// as lowercase hex in groups of 8-4-4-4-12 joined by hyphens.
#[verifier::external_body]
pub(crate) fn generate_uuid() -> (r: String)
    ensures
        is_uuid_text(r@),
{
    uuid::Uuid::new_v4().hyphenated().to_string()
}

} // verus!
