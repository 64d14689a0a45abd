//! Reading a signed decimal number.
//!
//! A number is an optional sign, `+` or `-`, and then one or more of the
//! digits `0` to `9`, with nothing before, between or after them.

use vstd::prelude::*;
use vstd::string::*;

verus! {

/// Is `c` one of the digits `0` to `9`?
pub open spec fn is_digit(c: char) -> bool {
    '0' <= c && c <= '9'
}

/// Is `s` made of digits alone?
pub open spec fn all_digits(s: Seq<char>) -> bool {
    forall|i: int| 0 <= i < s.len() ==> is_digit(#[trigger] s[i])
}

/// The number that the digits `s` spell.
pub open spec fn digits_value(s: Seq<char>) -> int
    decreases s.len(),
{
    if s.len() == 0 {
        0
    } else {
        digits_value(s.drop_last()) * 10 + (s.last() as u32 - '0' as u32)
    }
}

/// Does `text` begin with a sign?
pub open spec fn signed(text: Seq<char>) -> bool {
    text.len() > 0 && (text[0] == '-' || text[0] == '+')
}

/// What follows the sign of `text`, or all of it where it has none.
pub open spec fn magnitude(text: Seq<char>) -> Seq<char> {
    if signed(text) {
        text.skip(1)
    } else {
        text
    }
}

/// The number that `text` spells, where it spells one that fits 64 bits.
pub open spec fn decimal_i64(text: Seq<char>) -> Option<i64> {
    let digits = magnitude(text);
    if digits.len() == 0 || !all_digits(digits) {
        None
    } else {
        let v = if text[0] == '-' {
            -digits_value(digits)
        } else {
            digits_value(digits)
        };
        if i64::MIN <= v <= i64::MAX {
            Some(v as i64)
        } else {
            None
        }
    }
}

proof fn lemma_value_grows(s: Seq<char>, k: int)
    requires
        all_digits(s),
        0 <= k <= s.len(),
    ensures
        0 <= digits_value(s.take(k)) <= digits_value(s),
    decreases s.len() - k,
{
    if k == s.len() {
        assert(s.take(k) =~= s);
        lemma_value_not_negative(s);
    } else {
        lemma_value_grows(s, k + 1);
        assert(s.take(k + 1).drop_last() =~= s.take(k));
        assert(is_digit(s[k]));
        assert(s.take(k + 1).last() == s[k]);
        lemma_value_not_negative(s.take(k));
    }
}

proof fn lemma_value_not_negative(s: Seq<char>)
    requires
        all_digits(s),
    ensures
        0 <= digits_value(s),
    decreases s.len(),
{
    if s.len() > 0 {
        assert(is_digit(s[s.len() - 1]));
        assert forall|i: int| 0 <= i < s.drop_last().len() implies is_digit(
            #[trigger] s.drop_last()[i],
        ) by {
            assert(s.drop_last()[i] == s[i]);
        }
        lemma_value_not_negative(s.drop_last());
    }
}

proof fn lemma_beyond_ascii_is_no_number(text: Seq<char>)
    requires
        !vstd::utf8::is_ascii_chars(text),
    ensures
        decimal_i64(text).is_none(),
{
    let i = choose|i: int| 0 <= i < text.len() && !('\0' <= #[trigger] text[i] <= '\u{7f}');
    assert(!is_digit(text[i]));
    if signed(text) {
        assert(i >= 1);
        assert(magnitude(text)[i - 1] == text[i]);
    } else {
        assert(magnitude(text)[i] == text[i]);
    }
}

/// Reads `text` as a signed decimal number of 64 bits.
pub fn parse_i64(text: &str) -> (n: Option<i64>)
    ensures
        n == decimal_i64(text@),
{
    if !text.is_ascii() {
        proof {
            lemma_beyond_ascii_is_no_number(text@);
        }
        return None;
    }
    let bytes = text.as_bytes();
    proof {
        is_ascii_spec_bytes(text);
    }
    let len = bytes.len();
    if len == 0 {
        return None;
    }
    let negative = bytes[0] == 45;
    let start: usize = if bytes[0] == 45 || bytes[0] == 43 {
        1
    } else {
        0
    };
    let ghost digits = magnitude(text@);
    assert(text@[0] as u8 == bytes[0]);
    assert(signed(text@) == (start == 1));
    assert(digits.len() == len - start);
    if start == len {
        return None;
    }
    let mut acc: u64 = 0;
    let mut i: usize = start;
    proof {
        assert(digits.take(0).len() == 0);
    }
    while i < len
        invariant
            start <= i <= len,
            len == bytes@.len(),
            len == text@.len(),
            digits == magnitude(text@),
            digits.len() == len - start,
            vstd::utf8::is_ascii_chars(text@),
            forall|k: int| 0 <= k < len ==> bytes@[k] == #[trigger] text@[k] as u8,
            forall|k: int| 0 <= k < digits.len() ==> #[trigger] digits[k] == text@[k + start],
            all_digits(digits.take(i - start)),
            acc == digits_value(digits.take(i - start)),
            acc <= 9223372036854775808,
        decreases len - i,
    {
        let b = bytes[i];
        let ghost c = text@[i as int];
        assert(digits[i - start] == c);
        assert(b == c as u8);
        if b < 48 || b > 57 {
            assert(!is_digit(c));
            return None;
        }
        assert(is_digit(c));
        let next: u128 = acc as u128 * 10 + (b - 48) as u128;
        proof {
            assert(digits.take(i + 1 - start).drop_last() =~= digits.take(i - start));
            assert(digits.take(i + 1 - start).last() == c);
            assert(next == digits_value(digits.take(i + 1 - start)));
            assert forall|k: int| 0 <= k < digits.take(i + 1 - start).len() implies is_digit(
                #[trigger] digits.take(i + 1 - start)[k],
            ) by {
                if k < i - start {
                    assert(digits.take(i + 1 - start)[k] == digits.take(i - start)[k]);
                }
            }
        }
        if next > 9223372036854775808 {
            proof {
                if all_digits(digits) {
                    lemma_value_grows(digits, i + 1 - start);
                }
            }
            return None;
        }
        acc = next as u64;
        i = i + 1;
    }
    proof {
        assert(digits.take(i - start) =~= digits);
    }
    if negative {
        if acc == 9223372036854775808 {
            Some(-9223372036854775808)
        } else {
            Some(-(acc as i64))
        }
    } else if acc > 9223372036854775807 {
        None
    } else {
        Some(acc as i64)
    }
}

} // verus!
