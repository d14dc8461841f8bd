//! The freight table: a flat freight amount, in cents, for each regional code.

use crate::utils::text::chars_of;
use std::collections::HashMap;
use vstd::prelude::*;

verus! {

broadcast use vstd::std_specs::hash::group_hash_axioms;

/// Freight in cents charged for a delivery to the region `code`, by the table
/// the service uses; `None` for a code the table does not list.
pub open spec fn standard_freight(code: int) -> Option<int> {
    if code == 35 {
        Some(0)
    } else if code == 31 || code == 33 || code == 41 || code == 50 {
        Some(500)
    } else if code == 32 || code == 29 || code == 52 || code == 51 || code == 53 || code == 42 {
        Some(1000)
    } else if code == 43 || code == 11 || code == 13 || code == 15 || code == 17 || code == 22
        || code == 26 || code == 27 || code == 28 {
        Some(1500)
    } else if code == 12 || code == 14 || code == 16 || code == 21 || code == 23 || code == 25 {
        Some(2000)
    } else if code == 24 {
        Some(2500)
    } else {
        None
    }
}

/// A mapping from regional code to freight amount in cents.
pub struct FreightTable {
    entries: HashMap<i64, i64>,
}

impl View for FreightTable {
    type V = Map<int, int>;

    closed spec fn view(&self) -> Map<int, int> {
        Map::new(
            |code: int| i64::MIN <= code <= i64::MAX && self.entries@.contains_key(code as i64),
            |code: int| self.entries@[code as i64] as int,
        )
    }
}

impl FreightTable {
    /// The freight for `code`, if the table lists it.
    pub open spec fn freight(&self, code: int) -> Option<int> {
        if self@.contains_key(code) {
            Some(self@[code])
        } else {
            None
        }
    }

    /// A table without entries.
    pub fn new() -> (table: FreightTable)
        ensures
            table@ == Map::<int, int>::empty(),
    {
        let table = FreightTable { entries: HashMap::new() };
        assert(table@ =~= Map::<int, int>::empty());
        table
    }

    /// Sets the freight of `code` to `amount`, replacing an earlier entry.
    pub fn insert(&mut self, code: i64, amount: i64)
        ensures
            final(self)@ == old(self)@.insert(code as int, amount as int),
    {
        self.entries.insert(code, amount);
        assert(self@ =~= old(self)@.insert(code as int, amount as int));
    }

    /// Looks up the freight of `code`.
    pub fn get(&self, code: i64) -> (amount: Option<i64>)
        ensures
            self.freight(code as int) == match amount {
                Some(a) => Some(a as int),
                None => None,
            },
    {
        match self.entries.get(&code) {
            Some(a) => Some(*a),
            None => None,
        }
    }

    /// The table the service uses.
    pub fn standard() -> (table: FreightTable)
        ensures
            forall|code: int| #[trigger] table.freight(code) == standard_freight(code),
    {
        let mut table = FreightTable::new();
        table.insert(35, 0);
        table.insert(31, 500);
        table.insert(33, 500);
        table.insert(41, 500);
        table.insert(50, 500);
        table.insert(32, 1000);
        table.insert(29, 1000);
        table.insert(52, 1000);
        table.insert(51, 1000);
        table.insert(53, 1000);
        table.insert(42, 1000);
        table.insert(43, 1500);
        table.insert(11, 1500);
        table.insert(13, 1500);
        table.insert(15, 1500);
        table.insert(17, 1500);
        table.insert(22, 1500);
        table.insert(26, 1500);
        table.insert(27, 1500);
        table.insert(28, 1500);
        table.insert(12, 2000);
        table.insert(14, 2000);
        table.insert(16, 2000);
        table.insert(21, 2000);
        table.insert(23, 2000);
        table.insert(25, 2000);
        table.insert(24, 2500);
        table
    }
}

/// Whether `c` is a decimal digit.
pub open spec fn is_digit(c: char) -> bool {
    '0' <= c <= '9'
}

/// Whether `s` consists of decimal digits only.
pub open spec fn all_digits(s: Seq<char>) -> bool {
    forall|i: int| 0 <= i < s.len() ==> is_digit(#[trigger] s[i])
}

/// The number that the decimal digits `s` write.
pub open spec fn decimal_value(s: Seq<char>) -> int
    decreases s.len(),
{
    if s.len() == 0 {
        0
    } else {
        decimal_value(s.drop_last()) * 10 + (s.last() as int - '0' as int)
    }
}

/// The regional code that `text` writes: an optional sign, then one decimal
/// digit or more, the whole within the range of `i64`. Any other text writes
/// no code.
pub open spec fn region_code(text: Seq<char>) -> Option<int> {
    let signed = text.len() > 0 && (text[0] == '-' || text[0] == '+');
    let digits = if signed {
        text.skip(1)
    } else {
        text
    };
    let value = if signed && text[0] == '-' {
        -decimal_value(digits)
    } else {
        decimal_value(digits)
    };
    if digits.len() > 0 && all_digits(digits) && i64::MIN <= value <= i64::MAX {
        Some(value)
    } else {
        None
    }
}

/// A number written in digits does not shrink when more digits follow.
proof fn lemma_decimal_value_grows(s: Seq<char>, k: int)
    requires
        all_digits(s),
        0 <= k <= s.len(),
    ensures
        0 <= decimal_value(s.take(k)) <= decimal_value(s),
    decreases s.len() - k,
{
    lemma_decimal_value_nonnegative(s.take(k));
    if k == s.len() {
        assert(s.take(k) =~= s);
    } else {
        lemma_decimal_value_grows(s, k + 1);
        assert(s.take(k + 1).drop_last() =~= s.take(k));
        assert(is_digit(s[k]));
        assert(s.take(k + 1).last() == s[k]);
    }
}

proof fn lemma_decimal_value_nonnegative(s: Seq<char>)
    requires
        all_digits(s),
    ensures
        0 <= decimal_value(s),
    decreases s.len(),
{
    if s.len() > 0 {
        assert(is_digit(s.last()));
        lemma_decimal_value_nonnegative(s.drop_last());
    }
}

/// Reads a regional code from its text.
#[verifier::loop_isolation(false)]
pub fn parse_region_code(text: &str) -> (code: Option<i64>)
    ensures
        region_code(text@) == match code {
            Some(c) => Some(c as int),
            None => None,
        },
{
    let chars = chars_of(text);
    let len = chars.len();
    if len == 0 {
        return None;
    }
    let first = chars[0];
    let negative = first == '-';
    let start: usize = if first == '-' || first == '+' {
        1
    } else {
        0
    };
    if start == len {
        return None;
    }
    let ghost digits = if start == 1 {
        text@.skip(1)
    } else {
        text@
    };
    let mut magnitude: i128 = 0;
    let mut i: usize = start;
    while i < len
        invariant
            start <= i <= len,
            len == text@.len(),
            start <= 1,
            digits.len() == len - start,
            forall|j: int| 0 <= j < digits.len() ==> digits[j] == text@[j + start],
            all_digits(digits.take(i - start)),
            magnitude == decimal_value(digits.take(i - start)),
            0 <= magnitude <= 0x8000_0000_0000_0000,
        decreases len - i,
    {
        let c = chars[i];
        let ghost prefix = digits.take(i - start + 1);
        proof {
            assert(prefix.drop_last() =~= digits.take(i - start));
            assert(prefix.last() == c);
        }
        if c < '0' || c > '9' {
            proof {
                assert(!is_digit(digits[i - start]));
            }
            return None;
        }
        let d: i128 = (c as u32 - '0' as u32) as i128;
        magnitude = magnitude * 10 + d;
        proof {
            assert forall|j: int| 0 <= j < prefix.len() implies is_digit(#[trigger] prefix[j]) by {
                if j < i - start {
                    assert(digits.take(i - start)[j] == prefix[j]);
                }
            }
        }
        i = i + 1;
        if magnitude > 0x8000_0000_0000_0000 {
            proof {
                if all_digits(digits) {
                    lemma_decimal_value_grows(digits, i - start);
                }
            }
            return None;
        }
    }
    proof {
        assert(digits.take(i - start) =~= digits);
    }
    if negative {
        Some((-magnitude) as i64)
    } else if magnitude == 0x8000_0000_0000_0000 {
        None
    } else {
        Some(magnitude as i64)
    }
}

} // verus!
