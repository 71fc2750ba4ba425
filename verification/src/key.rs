//! Keys of the catalogue: text that names an item by its number.
//!
//! A key is a decimal integer: an optional sign, `+` or `-`, and after it one
//! or more of the digits `0` to `9`, nothing before, between or behind them.
//! Its value must fit in an `i32`. Zeros in front do not count.

use vstd::prelude::*;
use vstd::string::*;

verus! {

/// Whether `c` is one of the ten decimal digits.
pub open spec fn is_digit(c: char) -> bool {
    '0' <= c <= '9'
}

/// What the digit `c` stands for, and 0 for any other character.
pub open spec fn digit_value(c: char) -> nat {
    if is_digit(c) {
        (c as int - '0' as int) as nat
    } else {
        0
    }
}

/// Whether `s` holds digits only.
pub open spec fn all_digits(s: Seq<char>) -> bool {
    forall|i: int| 0 <= i < s.len() ==> is_digit(#[trigger] s[i])
}

/// The number that the digits of `s` write in base ten.
pub open spec fn digits_value(s: Seq<char>) -> nat
    decreases s.len(),
{
    if s.len() == 0 {
        0
    } else {
        digits_value(s.drop_last()) * 10 + digit_value(s.last())
    }
}

/// Whether `s` starts with a sign.
pub open spec fn has_sign(s: Seq<char>) -> bool {
    s.len() > 0 && (s[0] == '-' || s[0] == '+')
}

/// What follows the sign of `s`, or all of `s` if it has none.
pub open spec fn unsigned_part(s: Seq<char>) -> Seq<char> {
    if has_sign(s) {
        s.drop_first()
    } else {
        s
    }
}

/// The number that `s` writes, where what follows its sign is all digits.
pub open spec fn signed_value(s: Seq<char>) -> int {
    if s.len() > 0 && s[0] == '-' {
        -(digits_value(unsigned_part(s)) as int)
    } else {
        digits_value(unsigned_part(s)) as int
    }
}

/// The number that the key `s` names, or `None` where `s` is no decimal
/// integer or its value does not fit in an `i32`.
pub open spec fn key_id(s: Seq<char>) -> Option<i32> {
    if unsigned_part(s).len() > 0 && all_digits(unsigned_part(s)) && i32::MIN <= signed_value(s)
        <= i32::MAX {
        Some(signed_value(s) as i32)
    } else {
        None
    }
}

/// Digits added behind a number do not make it smaller.
proof fn lemma_prefix_value_is_no_larger(s: Seq<char>, k: int)
    requires
        0 <= k <= s.len(),
    ensures
        digits_value(s.take(k)) <= digits_value(s),
    decreases s.len() - k,
{
    if k == s.len() {
        assert(s.take(k) =~= s);
    } else {
        assert(s.drop_last().take(k) =~= s.take(k));
        lemma_prefix_value_is_no_larger(s.drop_last(), k);
    }
}

/// One more digit multiplies the value by ten and adds the digit.
proof fn lemma_value_with_next_digit(s: Seq<char>, from: int, to: int)
    requires
        0 <= from <= to < s.len(),
    ensures
        digits_value(s.subrange(from, to + 1)) == digits_value(s.subrange(from, to)) * 10
            + digit_value(s[to]),
{
    assert(s.subrange(from, to + 1).drop_last() =~= s.subrange(from, to));
}

/// Reads a key as the number of an item.
///
/// Returns the number where the key is a decimal integer that fits in an
/// `i32`, and `None` for every other text: the empty text, a sign alone, a
/// space or any other character that is no digit, a value out of range.
pub fn parse_key(key: &str) -> (id: Option<i32>)
    ensures
        id == key_id(key@),
{
    broadcast use is_ascii_spec_bytes;

    if !key.is_ascii() {
        proof {
            let j = choose|j: int|
                0 <= j < key@.len() && !('\0' <= #[trigger] key@[j] && key@[j] <= '\u{7f}');
            if has_sign(key@) {
                assert(unsigned_part(key@)[j - 1] == key@[j]);
            }
        }
        return None;
    }
    let bytes = key.as_bytes();
    let n = bytes.len();
    if n == 0 {
        return None;
    }
    let negative = bytes[0] == 45u8;
    let start: usize = if negative || bytes[0] == 43u8 {
        1
    } else {
        0
    };
    let ghost body = key@.subrange(start as int, n as int);
    assert(body =~= unsigned_part(key@));
    if start == n {
        return None;
    }
    let mut i: usize = start;
    let mut total: i64 = 0;
    while i < n
        invariant
            start <= i <= n,
            n == key@.len(),
            n == bytes@.len(),
            forall|j: int| 0 <= j < n ==> bytes@[j] == #[trigger] key@[j] as u8,
            forall|j: int| 0 <= j < n ==> '\0' <= #[trigger] key@[j] <= '\u{7f}',
            body == key@.subrange(start as int, n as int),
            body == unsigned_part(key@),
            negative == (key@[0] == '-'),
            all_digits(key@.subrange(start as int, i as int)),
            total == digits_value(key@.subrange(start as int, i as int)),
            0 <= total <= 2147483648,
        decreases n - i,
    {
        let b = bytes[i];
        if b < 48u8 || b > 57u8 {
            assert(!is_digit(body[i - start]));
            return None;
        }
        proof {
            lemma_value_with_next_digit(key@, start as int, i as int);
            assert forall|j: int| 0 <= j < i + 1 - start implies is_digit(
                #[trigger] key@.subrange(start as int, i + 1)[j],
            ) by {
                if j < i - start {
                    assert(key@.subrange(start as int, i as int)[j] == key@[start + j]);
                }
            }
        }
        total = total * 10 + (b - 48u8) as i64;
        i = i + 1;
        if total > 2147483648 {
            proof {
                assert(body.take(i - start) =~= key@.subrange(start as int, i as int));
                lemma_prefix_value_is_no_larger(body, i - start);
            }
            return None;
        }
    }
    assert(key@.subrange(start as int, i as int) =~= body);
    if negative {
        Some((0 - total) as i32)
    } else if total > 2147483647 {
        None
    } else {
        Some(total as i32)
    }
}

} // verus!
