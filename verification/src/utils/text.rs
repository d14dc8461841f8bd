//! Texts as sequences of characters.

use crate::utils::search::first_such;
use vstd::prelude::*;

verus! {

/// The characters of `text`, in order.
pub fn chars_of(text: &str) -> (chars: Vec<char>)
    ensures
        chars@ == text@,
{
    let mut chars: Vec<char> = Vec::new();
    for c in it: text.chars()
        invariant
            it.seq() == text@,
            chars@ == it.seq().take(it.index()),
    {
        chars.push(c);
    }
    chars
}

/// Whether `pattern` stands somewhere in `text`.
pub open spec fn occurs_in(pattern: Seq<char>, text: Seq<char>) -> bool {
    exists|i: int| occurs_at(pattern, text, i)
}

/// Whether `pattern` stands in `text` from the position `i` on.
pub open spec fn occurs_at(pattern: Seq<char>, text: Seq<char>, i: int) -> bool {
    0 <= i <= text.len() - pattern.len() && text.subrange(i, i + pattern.len()) == pattern
}

/// Tells whether `pattern` stands in `text` from the position `i` on.
fn stands_at(pattern: &Vec<char>, text: &Vec<char>, i: usize) -> (found: bool)
    requires
        i + pattern.len() <= text.len(),
    ensures
        found == occurs_at(pattern@, text@, i as int),
{
    let m = pattern.len();
    let mut k: usize = 0;
    while k < m
        invariant
            k <= m,
            m == pattern.len(),
            i + m <= text.len(),
            forall|j: int| 0 <= j < k ==> text@[i + j] == pattern@[j],
        decreases m - k,
    {
        if text[i + k] != pattern[k] {
            proof {
                assert(text@.subrange(i as int, i + m)[k as int] == text@[i + k]);
            }
            return false;
        }
        k = k + 1;
    }
    proof {
        assert(text@.subrange(i as int, i + m) =~= pattern@);
    }
    true
}

/// Tells whether `pattern` stands somewhere in `text`.
pub fn contains_text(text: &str, pattern: &str) -> (found: bool)
    ensures
        found == occurs_in(pattern@, text@),
{
    let hay = chars_of(text);
    let needle = chars_of(pattern);
    if needle.len() > hay.len() {
        return false;
    }
    let last = hay.len() - needle.len();
    let mut i: usize = 0;
    loop
        invariant
            i <= last,
            last == hay.len() - needle.len(),
            hay@ == text@,
            needle@ == pattern@,
            forall|j: int| 0 <= j < i ==> !occurs_at(pattern@, text@, j),
        decreases last - i,
    {
        if stands_at(&needle, &hay, i) {
            return true;
        }
        if i == last {
            return false;
        }
        i = i + 1;
    }
}

/// The text `text` without the white space at its start and at its end, as
/// Unicode has white space.
pub uninterp spec fn trimmed(text: Seq<char>) -> Seq<char>;

/// Takes the white space off the start and the end of a text.
///
/// Calls `str::trim` of std, which goes by the Unicode tables; the contract
/// gives its result a name and claims nothing else of it.
#[verifier::external_body]
pub(crate) fn trim(text: &str) -> (bare: String)
    ensures
        bare@ == trimmed(text@),
{
    text.trim().to_string()
}

/// Whether `sep` stands at the position `i` of `s`.
pub open spec fn stands_in(s: Seq<char>, sep: char) -> spec_fn(int) -> bool {
    |i: int| s[i] == sep
}

/// The pieces of `s` between the occurrences of `sep`, in order: one more
/// than there are occurrences, so that a text without `sep` is one piece,
/// and the empty text one empty piece.
pub open spec fn split_on(s: Seq<char>, sep: char) -> Seq<Seq<char>>
    decreases s.len(),
{
    let i = first_such(s.len() as int, stands_in(s, sep));
    if 0 <= i < s.len() {
        seq![s.take(i)] + split_on(s.skip(i + 1), sep)
    } else {
        seq![s]
    }
}

/// The text `text` in lower case, as Unicode has it.
pub uninterp spec fn lowercased(text: Seq<char>) -> Seq<char>;

/// Turns a text into lower case.
///
/// Calls `str::to_lowercase` of std, which goes by the Unicode tables; the
/// contract gives its result a name and claims nothing else of it.
#[verifier::external_body]
pub(crate) fn to_lowercase(text: &str) -> (lower: String)
    ensures
        lower@ == lowercased(text@),
{
    text.to_lowercase()
}

/// Whether `text` has the form of an e-mail address.
pub uninterp spec fn is_email(text: Seq<char>) -> bool;

/// Tells whether a text has the form of an e-mail address.
///
/// Calls `validator::validate_email`. The contract gives its answer a name:
/// it depends on the text alone.
#[verifier::external_body]
pub(crate) fn is_valid_email(text: &str) -> (valid: bool)
    ensures
        valid == is_email(text@),
{
    validator::validate_email(text)
}

} // verus!
