//! Identifiers of stored records.

use vstd::prelude::*;

verus! {

/// Length of an identifier.
pub const IDENTIFIER_LENGTH: usize = 36;

/// Whether `c` is a decimal digit or a letter from `a` to `f`.
pub open spec fn is_lower_hex(c: char) -> bool {
    ('0' <= c <= '9') || ('a' <= c <= 'f')
}

/// Whether `s` has the form of an identifier: 36 characters, hyphens at the
/// positions 8, 13, 18 and 23, lower-case hexadecimal digits elsewhere.
pub open spec fn is_identifier(s: Seq<char>) -> bool {
    &&& s.len() == IDENTIFIER_LENGTH
    &&& forall|i: int|
        0 <= i < s.len() ==> if i == 8 || i == 13 || i == 18 || i == 23 {
            s[i] == '-'
        } else {
            is_lower_hex(#[trigger] s[i])
        }
}

/// A new random identifier.
///
/// Calls `uuid::Uuid::new_v4` and writes the result with `to_string`, which
/// for a `Uuid` is the hyphenated lower-case form. The contract claims that
/// form and no more: that two calls differ is a matter of chance, and is not
/// claimed.
#[verifier::external_body]
pub(crate) fn fresh_identifier() -> (id: String)
    ensures
        is_identifier(id@),
{
    uuid::Uuid::new_v4().to_string()
}

} // verus!
