use vstd::prelude::*;

verus! {

/// A lowercase hexadecimal digit.
pub open spec fn is_lower_hex_digit(c: char) -> bool {
    ('0' <= c && c <= '9') || ('a' <= c && c <= 'f')
}

/// What stands at position `i` of a hyphenated UUID: a hyphen at the
/// four group breaks, a lowercase hex digit everywhere else.
pub open spec fn uuid_char_ok(s: Seq<char>, i: int) -> bool {
    if i == 8 || i == 13 || i == 18 || i == 23 {
        s[i] == '-'
    } else {
        is_lower_hex_digit(s[i])
    }
}

/// The hyphenated textual form of a version-4 UUID: 36 characters in
/// five groups of lowercase hex digits (8-4-4-4-12) separated by
/// hyphens, with the version nibble `4` opening the third group.
pub open spec fn is_uuid_v4_text(s: Seq<char>) -> bool {
    &&& s.len() == 36
    &&& s[14] == '4'
    &&& forall|i: int| 0 <= i < 36 ==> #[trigger] uuid_char_ok(s, i)
}

/// Relies on uuid::Uuid::new_v4 and its hyphenated rendering through
/// Display: a freshly drawn random identifier, written as 36 lowercase
/// hex characters in the 8-4-4-4-12 groups with version nibble `4`.
/// The digits depend on the random draw, so nothing more is said.
#[verifier::external_body]
fn fresh_uuid_text() -> (r: String)
    ensures
        is_uuid_v4_text(r@),
{
    uuid::Uuid::new_v4().to_string()
}

/// Draws a new identifier: the 36-character text of a random
/// version-4 UUID.
pub fn gen_id() -> (r: String)
    ensures
        is_uuid_v4_text(r@),
        r@.len() == 36,
{
    fresh_uuid_text()
}

/// The capability of producing an identifier for a record about to be
/// stored. Implementors choose the scheme; the store only asks for the
/// text.
pub trait Id {
    fn gen_id(&self) -> String;
}

} // verus!
