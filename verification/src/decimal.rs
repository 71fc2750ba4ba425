//! Numbers in decimal notation, as JSON writes them.

use vstd::prelude::*;
use vstd::string::*;
use crate::key::{all_digits, digits_value, is_digit, key_id, unsigned_part};

verus! {

/// The character that writes the digit `d`.
pub open spec fn digit_char(d: nat) -> char {
    if d == 0 {
        '0'
    } else if d == 1 {
        '1'
    } else if d == 2 {
        '2'
    } else if d == 3 {
        '3'
    } else if d == 4 {
        '4'
    } else if d == 5 {
        '5'
    } else if d == 6 {
        '6'
    } else if d == 7 {
        '7'
    } else if d == 8 {
        '8'
    } else {
        '9'
    }
}

/// The digits of `n` in base ten, the first of them not zero unless `n` is.
pub open spec fn decimal_digits(n: nat) -> Seq<char>
    decreases n,
{
    if n < 10 {
        seq![digit_char(n)]
    } else {
        decimal_digits(n / 10).push(digit_char(n % 10))
    }
}

/// The number `i` in decimal notation: a minus sign if it is negative, then
/// its digits.
pub open spec fn decimal(i: int) -> Seq<char> {
    if i < 0 {
        seq!['-'] + decimal_digits((-i) as nat)
    } else {
        decimal_digits(i as nat)
    }
}

/// The text of one digit.
fn digit_text(d: u8) -> (text: &'static str)
    requires
        d < 10,
    ensures
        text@ == seq![digit_char(d as nat)],
{
    proof {
        reveal_strlit("0");
        reveal_strlit("1");
        reveal_strlit("2");
        reveal_strlit("3");
        reveal_strlit("4");
        reveal_strlit("5");
        reveal_strlit("6");
        reveal_strlit("7");
        reveal_strlit("8");
        reveal_strlit("9");
    }
    let text = if d == 0 {
        "0"
    } else if d == 1 {
        "1"
    } else if d == 2 {
        "2"
    } else if d == 3 {
        "3"
    } else if d == 4 {
        "4"
    } else if d == 5 {
        "5"
    } else if d == 6 {
        "6"
    } else if d == 7 {
        "7"
    } else if d == 8 {
        "8"
    } else {
        "9"
    };
    text
}

/// Writes the digits of `n` behind `out`.
fn append_digits(out: &mut String, n: u32)
    ensures
        final(out)@ == old(out)@ + decimal_digits(n as nat),
    decreases n,
{
    if n >= 10 {
        append_digits(out, n / 10);
    }
    let digit = (n % 10) as u8;
    out.append(digit_text(digit));
}

/// Writes `value` behind `out`.
pub fn append_decimal(out: &mut String, value: i32)
    ensures
        final(out)@ == old(out)@ + decimal(value as int),
{
    if value < 0 {
        proof {
            reveal_strlit("-");
        }
        out.append("-");
        let magnitude = (0 - (value as i64)) as u32;
        append_digits(out, magnitude);
    } else {
        append_digits(out, value as u32);
    }
}

/// The digits of a number are digits only, and write that number.
proof fn lemma_digits_write_the_number(n: nat)
    ensures
        decimal_digits(n).len() > 0,
        all_digits(decimal_digits(n)),
        digits_value(decimal_digits(n)) == n,
    decreases n,
{
    if n < 10 {
        assert(digits_value(decimal_digits(n).drop_last()) == 0);
    } else {
        lemma_digits_write_the_number(n / 10);
        assert(decimal_digits(n).drop_last() =~= decimal_digits(n / 10));
        assert forall|i: int| 0 <= i < decimal_digits(n).len() implies is_digit(
            #[trigger] decimal_digits(n)[i],
        ) by {
            if i < decimal_digits(n / 10).len() {
                assert(decimal_digits(n)[i] == decimal_digits(n / 10)[i]);
            }
        }
    }
}

/// What is written is read back: the decimal notation of a number is a key,
/// and the number that this key names is that number.
pub proof fn lemma_written_number_reads_back(i: i32)
    ensures
        key_id(decimal(i as int)) == Some(i),
{
    if i < 0 {
        let digits = decimal_digits((-i) as nat);
        lemma_digits_write_the_number((-i) as nat);
        assert(unsigned_part(decimal(i as int)) =~= digits);
    } else {
        lemma_digits_write_the_number(i as nat);
    }
}

} // verus!
