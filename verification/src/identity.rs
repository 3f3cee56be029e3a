//! Identifiers of result envelopes.

use vstd::prelude::*;
use vstd::string::*;

verus! {

/// A lower-case hexadecimal digit.
pub open spec fn is_lower_hex(c: char) -> bool {
    ('0' <= c && c <= '9') || ('a' <= c && c <= 'f')
}

/// The four places at which a hyphen separates the groups of an identifier.
pub open spec fn is_hyphen_position(i: int) -> bool {
    i == 8 || i == 13 || i == 18 || i == 23
}

/// The character `c` may stand at place `i` of an identifier: a hyphen
/// between the groups, a lower-case hexadecimal digit inside them.
pub open spec fn fits(c: char, i: int) -> bool {
    if is_hyphen_position(i) {
        c == '-'
    } else {
        is_lower_hex(c)
    }
}

/// The text of a random (version 4) UUID in hyphenated lower-case form:
/// `xxxxxxxx-xxxx-4xxx-yxxx-xxxxxxxxxxxx`, where `y` is one of `8`, `9`, `a`, `b`.
pub open spec fn is_identifier(s: Seq<char>) -> bool {
    &&& s.len() == 36
    &&& forall|i: int| 0 <= i < 36 ==> fits(#[trigger] s[i], i)
    &&& s[14] == '4'
    &&& (s[19] == '8' || s[19] == '9' || s[19] == 'a' || s[19] == 'b')
}

/// Draws a fresh identifier: `uuid::Uuid::new_v4`, rendered by the `Display`
/// impl of `Uuid`.
///
/// Trusted: the result is the hyphenated lower-case text of a UUID whose
/// version digit is 4 and whose variant digit is one of `8`, `9`, `a`, `b`.
/// Nothing is claimed about which identifier comes back; two calls may, in
/// principle, return the same one. The call aborts if the operating system
/// cannot supply random bytes.
#[verifier::external_body]
pub(crate) fn new_identifier() -> (id: String)
    ensures
        is_identifier(id@),
{
    uuid::Uuid::new_v4().to_string()
}

fn lower_hex(c: char) -> (yes: bool)
    ensures
        yes == is_lower_hex(c),
{
    ('0' <= c && c <= '9') || ('a' <= c && c <= 'f')
}

/// Tells whether `text` has the form of an identifier.
pub fn is_well_formed(text: &str) -> (yes: bool)
    ensures
        yes == is_identifier(text@),
{
    if text.unicode_len() != 36 {
        return false;
    }
    let mut i: usize = 0;
    while i < 36
        invariant
            text@.len() == 36,
            i <= 36,
            forall|j: int| 0 <= j < i ==> fits(#[trigger] text@[j], j),
        decreases 36 - i,
    {
        let c = text.get_char(i);
        let right = if i == 8 || i == 13 || i == 18 || i == 23 {
            c == '-'
        } else {
            lower_hex(c)
        };
        if !right {
            assert(!fits(text@[i as int], i as int));
            return false;
        }
        i += 1;
    }
    let version = text.get_char(14);
    let variant = text.get_char(19);
    version == '4' && (variant == '8' || variant == '9' || variant == 'a' || variant == 'b')
}

} // verus!
