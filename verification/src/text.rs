//! Verified helpers on character strings: searching for a separator,
//! splitting at its first occurrence, and parsing decimal numerals.

use vstd::prelude::*;

verus! {

/// True if `c` occurs somewhere in `s`.
pub open spec fn contains_char(s: Seq<char>, c: char) -> bool {
    exists|i: int| 0 <= i < s.len() && s[i] == c
}

/// The index of the first occurrence of `c` in `s`; meaningful only when
/// `contains_char(s, c)` holds.
pub open spec fn first_index(s: Seq<char>, c: char) -> int
    decreases s.len(),
{
    if s.len() == 0 {
        0
    } else if s[0] == c {
        0
    } else {
        1 + first_index(s.skip(1), c)
    }
}

pub proof fn lemma_first_index(s: Seq<char>, c: char)
    requires
        contains_char(s, c),
    ensures
        0 <= first_index(s, c) < s.len(),
        s[first_index(s, c)] == c,
        forall|j: int| 0 <= j < first_index(s, c) ==> s[j] != c,
    decreases s.len(),
{
    if s.len() == 0 {
    } else if s[0] == c {
    } else {
        let w = choose|i: int| 0 <= i < s.len() && s[i] == c;
        assert(s.skip(1)[w - 1] == c);
        lemma_first_index(s.skip(1), c);
        let f = first_index(s.skip(1), c);
        assert(s[1 + f] == s.skip(1)[f]);
        assert forall|j: int| 0 <= j < 1 + f implies s[j] != c by {
            if j > 0 {
                assert(s[j] == s.skip(1)[j - 1]);
            }
        }
    }
}

pub proof fn lemma_first_index_is(s: Seq<char>, c: char, i: int)
    requires
        0 <= i < s.len(),
        s[i] == c,
        forall|j: int| 0 <= j < i ==> s[j] != c,
    ensures
        first_index(s, c) == i,
    decreases s.len(),
{
    if i > 0 {
        assert(s.skip(1)[i - 1] == c);
        assert forall|j: int| 0 <= j < i - 1 implies s.skip(1)[j] != c by {
            assert(s.skip(1)[j] == s[j + 1]);
        }
        lemma_first_index_is(s.skip(1), c, i - 1);
    }
}

/// The index (in characters) of the first occurrence of `c` in `s`, if any.
pub fn find_char(s: &str, c: char) -> (r: Option<usize>)
    ensures
        match r {
            Some(i) => contains_char(s@, c) && i == first_index(s@, c),
            None => !contains_char(s@, c),
        },
{
    let n = s.unicode_len();
    let mut i: usize = 0;
    while i < n
        invariant
            i <= n,
            n == s@.len(),
            forall|j: int| 0 <= j < i ==> s@[j] != c,
        decreases n - i,
    {
        if s.get_char(i) == c {
            proof {
                lemma_first_index_is(s@, c, i as int);
            }
            return Some(i);
        }
        i += 1;
    }
    None
}

/// Splits `s` at the first occurrence of `c`; the separator itself belongs
/// to neither half.
pub fn split_at_first<'a>(s: &'a str, c: char) -> (r: Option<(&'a str, &'a str)>)
    ensures
        match r {
            Some((a, b)) => {
                &&& contains_char(s@, c)
                &&& a@ == s@.take(first_index(s@, c))
                &&& b@ == s@.skip(first_index(s@, c) + 1)
            },
            None => !contains_char(s@, c),
        },
{
    match find_char(s, c) {
        None => None,
        Some(i) => {
            proof {
                lemma_first_index(s@, c);
            }
            let n = s.unicode_len();
            let a = s.substring_char(0, i);
            let b = s.substring_char(i + 1, n);
            proof {
                assert(a@ =~= s@.take(i as int));
                assert(b@ =~= s@.skip(i as int + 1));
            }
            Some((a, b))
        },
    }
}

/// True if `c` is an ASCII decimal digit.
pub open spec fn is_digit(c: char) -> bool {
    48 <= c as int && c as int <= 57
}

/// The numeric value of the digit character `c`.
pub open spec fn digit_value(c: char) -> int {
    c as int - 48
}

/// True if every character of `s` is an ASCII decimal digit.
pub open spec fn all_digits(s: Seq<char>) -> bool {
    forall|i: int| 0 <= i < s.len() ==> is_digit(#[trigger] s[i])
}

/// The value of a string of decimal digits, most significant digit first.
pub open spec fn digits_value(s: Seq<char>) -> int
    decreases s.len(),
{
    if s.len() == 0 {
        0
    } else {
        digits_value(s.drop_last()) * 10 + digit_value(s.last())
    }
}

/// The digits of a numeral after an optional leading `+` sign.
pub open spec fn numeral_digits(s: Seq<char>) -> Seq<char> {
    if s.len() > 0 && s[0] == '+' {
        s.skip(1)
    } else {
        s
    }
}

/// True if the standard library would parse `s` as a `u32`: an optional
/// leading `+`, then one or more decimal digits, with a value that fits.
pub open spec fn is_u32_numeral(s: Seq<char>) -> bool {
    &&& numeral_digits(s).len() > 0
    &&& all_digits(numeral_digits(s))
    &&& digits_value(numeral_digits(s)) <= u32::MAX
}

/// The value denoted by the numeral `s`.
pub open spec fn u32_numeral_value(s: Seq<char>) -> int {
    digits_value(numeral_digits(s))
}

pub proof fn lemma_digits_value_nonneg(s: Seq<char>)
    requires
        all_digits(s),
    ensures
        digits_value(s) >= 0,
    decreases s.len(),
{
    if s.len() > 0 {
        assert(all_digits(s.drop_last()));
        lemma_digits_value_nonneg(s.drop_last());
    }
}

/// A longer digit string denotes at least as large a value: the value of a
/// prefix never exceeds the value of the whole.
pub proof fn lemma_digits_value_prefix(s: Seq<char>, i: int)
    requires
        0 <= i <= s.len(),
        all_digits(s),
    ensures
        digits_value(s.take(i)) <= digits_value(s),
    decreases s.len() - i,
{
    if i < s.len() {
        assert(s.take(i + 1).drop_last() =~= s.take(i));
        assert(s.take(i + 1).last() == s[i]);
        assert(all_digits(s.take(i)));
        lemma_digits_value_nonneg(s.take(i));
        assert(digits_value(s.take(i)) <= digits_value(s.take(i + 1)));
        lemma_digits_value_prefix(s, i + 1);
    } else {
        assert(s.take(i) =~= s);
    }
}

/// Parses `s` as a `u32` numeral the way the standard library does: an
/// optional leading `+`, then one or more ASCII decimal digits, rejecting
/// values above `u32::MAX`.
pub fn parse_u32(s: &str) -> (r: Option<u32>)
    ensures
        match r {
            Some(v) => is_u32_numeral(s@) && v == u32_numeral_value(s@),
            None => !is_u32_numeral(s@),
        },
{
    let n = s.unicode_len();
    let mut start: usize = 0;
    if n > 0 && s.get_char(0) == '+' {
        start = 1;
    }
    let ghost digs = numeral_digits(s@);
    proof {
        assert(digs =~= s@.skip(start as int));
    }
    if start == n {
        return None;
    }
    let mut acc: u32 = 0;
    let mut i: usize = start;
    while i < n
        invariant
            start <= i <= n,
            start < n,
            n == s@.len(),
            digs == numeral_digits(s@),
            digs =~= s@.skip(start as int),
            all_digits(digs.take(i - start)),
            acc == digits_value(digs.take(i - start)),
        decreases n - i,
    {
        let c = s.get_char(i);
        let cv = c as u32;
        proof {
            assert(digs[i - start] == s@[i as int]);
        }
        if cv < 48 || cv > 57 {
            proof {
                assert(!is_digit(digs[i - start]));
            }
            return None;
        }
        let d = cv - 48;
        let wide: u64 = acc as u64 * 10 + d as u64;
        proof {
            assert(digs.take(i - start + 1).drop_last() =~= digs.take(i - start));
            assert(digs.take(i - start + 1).last() == digs[i - start]);
            assert(digits_value(digs.take(i - start + 1)) == wide);
            assert(all_digits(digs.take(i - start + 1)));
        }
        if wide > 0xFFFF_FFFFu64 {
            proof {
                if all_digits(digs) {
                    lemma_digits_value_prefix(digs, i - start + 1);
                }
            }
            return None;
        }
        acc = wide as u32;
        i += 1;
    }
    proof {
        assert(digs.take(n - start) =~= digs);
    }
    Some(acc)
}

} // verus!
