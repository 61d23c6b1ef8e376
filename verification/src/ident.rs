//! Identifiers for new records.

use vstd::prelude::*;

verus! {

/// The number of characters in a generated identifier.
pub const ID_LENGTH: usize = 36;

/// `c` is a decimal digit or a letter from `a` to `f`.
pub open spec fn is_lower_hex(c: char) -> bool {
    ('0' <= c && c <= '9') || ('a' <= c && c <= 'f')
}

/// The places of a generated identifier that hold a hyphen.
pub open spec fn is_hyphen_place(i: int) -> bool {
    i == 8 || i == 13 || i == 18 || i == 23
}

/// `id` has the shape of a generated identifier: 36 characters, hyphens
/// after the 8th, 12th, 16th and 20th digit, lower-case hexadecimal digits
/// elsewhere.
pub open spec fn is_generated_id(id: Seq<char>) -> bool {
    &&& id.len() == ID_LENGTH
    &&& forall|i: int|
        0 <= i < id.len() ==> if is_hyphen_place(i) {
            #[trigger] id[i] == '-'
        } else {
            is_lower_hex(id[i])
        }
}

/// Draws a random identifier with `uuid::Uuid::new_v4` and writes it out with
/// the `Display` of `Uuid`.
///
/// Trusted, not proved: `Uuid` displays itself in the hyphenated lower-case
/// form. The identifier is random, so nothing is claimed about which one
/// comes back, nor that two draws differ.
#[verifier::external_body]
pub(crate) fn fresh_id() -> (id: String)
    ensures
        is_generated_id(id@),
{
    uuid::Uuid::new_v4().to_string()
}

} // verus!
