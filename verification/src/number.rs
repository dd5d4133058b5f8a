//! Reading an index from a line of text.

use vstd::prelude::*;

use crate::error::ErrorKind;
use crate::text::chars_of;

verus! {

/// `c` is one of `0`-`9`.
pub open spec fn is_digit(c: char) -> bool {
    '0' <= c && c <= '9'
}

/// The number that a decimal digit stands for.
pub open spec fn digit_value(c: char) -> nat {
    (c as u32 - 48) as nat
}

/// The number written by a run of decimal digits.
pub open spec fn decimal_value(digits: Seq<char>) -> nat
    decreases digits.len(),
{
    if digits.len() == 0 {
        0
    } else {
        10 * decimal_value(digits.drop_last()) + digit_value(digits.last())
    }
}

/// The digits of a line: the line itself, without a leading plus sign.
pub open spec fn digits_of(line: Seq<char>) -> Seq<char> {
    if line.len() > 0 && line[0] == '+' {
        line.skip(1)
    } else {
        line
    }
}

/// The non-negative integer that a line writes down: one or more decimal
/// digits, with an optional plus sign in front.
pub open spec fn written_number(line: Seq<char>) -> Option<nat> {
    let digits = digits_of(line);
    if digits.len() > 0 && forall|i: int| 0 <= i < digits.len() ==> is_digit(#[trigger] digits[i]) {
        Some(decimal_value(digits))
    } else {
        None
    }
}

/// The index that a line stands for: the number it writes down, where there
/// is one and an index can hold it.
pub open spec fn index_of_line(line: Seq<char>) -> Result<usize, ErrorKind> {
    match written_number(line) {
        Some(n) => if n <= usize::MAX {
            Ok(n as usize)
        } else {
            Err(ErrorKind::InvalidInput)
        },
        None => Err(ErrorKind::InvalidInput),
    }
}

/// A longer run of digits writes a number that is at least as large as any
/// of its beginnings.
proof fn lemma_prefix_value(digits: Seq<char>, k: int)
    requires
        0 <= k <= digits.len(),
    ensures
        decimal_value(digits.take(k)) <= decimal_value(digits),
    decreases digits.len() - k,
{
    if k == digits.len() {
        assert(digits.take(k) == digits);
    } else {
        lemma_prefix_value(digits, k + 1);
        assert(digits.take(k + 1).drop_last() == digits.take(k));
    }
}

/// Reads an index from `line`. Fails with `InvalidInput` when the line is
/// not a non-negative decimal integer, or when no index can hold it.
pub fn parse_index(line: &str) -> (index: Result<usize, ErrorKind>)
    ensures
        index == index_of_line(line@),
{
    let chars = chars_of(line);
    let start: usize = if chars.len() > 0 && chars[0] == '+' {
        1
    } else {
        0
    };
    let ghost digits = digits_of(line@);
    assert(digits == chars@.skip(start as int));
    if start == chars.len() {
        return Err(ErrorKind::InvalidInput);
    }
    let mut value: usize = 0;
    let mut i: usize = start;
    assert(digits.take(0) == Seq::<char>::empty());
    while i < chars.len()
        invariant
            start <= i <= chars.len(),
            digits == digits_of(line@),
            digits == chars@.skip(start as int),
            forall|j: int| 0 <= j < i - start ==> is_digit(#[trigger] digits[j]),
            value == decimal_value(digits.take(i - start)),
        decreases chars.len() - i,
    {
        let c: char = chars[i];
        if c < '0' || c > '9' {
            assert(!is_digit(digits[i - start]));
            return Err(ErrorKind::InvalidInput);
        }
        let d: usize = (c as u32 - 48) as usize;
        assert(digits.take(i - start + 1).drop_last() == digits.take(i - start));
        assert(digits.take(i - start + 1).last() == c);
        if value > (usize::MAX - d) / 10 {
            proof {
                lemma_prefix_value(digits, i - start + 1);
                assert(decimal_value(digits.take(i - start + 1)) == 10 * value + d);
            }
            return Err(ErrorKind::InvalidInput);
        }
        value = value * 10 + d;
        i += 1;
    }
    assert(digits.take(digits.len() as int) == digits);
    Ok(value)
}

} // verus!
