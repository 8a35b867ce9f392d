//! Decimal formatting of integers, verified down to the character
//! sequence: digit sequences, signed numbers, and two-digit zero
//! padding for month and day fields.

use vstd::prelude::*;
use vstd::string::StrSliceExecFns;
use vstd::string::StringExecFns;
use vstd::string::is_ascii;

verus! {

/// The character for a single decimal digit.
pub open spec fn digit_char(d: nat) -> char {
    if d == 0 {
        '0'
    } else if d == 1 {
        '1'
    } else if d == 2 {
        '2'
    } else if d == 3 {
        '3'
    } else if d == 4 {
        '4'
    } else if d == 5 {
        '5'
    } else if d == 6 {
        '6'
    } else if d == 7 {
        '7'
    } else if d == 8 {
        '8'
    } else {
        '9'
    }
}

/// The decimal digits of `n`, most significant first, with no sign and
/// no leading zeros (a single `'0'` for zero itself).
pub open spec fn dec_digits(n: nat) -> Seq<char>
    decreases n,
{
    if n < 10 {
        seq![digit_char(n)]
    } else {
        dec_digits(n / 10).push(digit_char(n % 10))
    }
}

/// The magnitude of an integer.
pub open spec fn abs_int(i: int) -> nat {
    if i < 0 {
        (-i) as nat
    } else {
        i as nat
    }
}

/// The decimal form of a signed integer: a leading `'-'` for negative
/// values, no padding, no `'+'`.
pub open spec fn int_digits(i: int) -> Seq<char> {
    if i < 0 {
        "-"@ + dec_digits(abs_int(i))
    } else {
        dec_digits(abs_int(i))
    }
}

/// The decimal form of `n` padded with `'0'` on the left to at least
/// two characters.
pub open spec fn pad2(n: nat) -> Seq<char> {
    if n < 10 {
        "0"@ + dec_digits(n)
    } else {
        dec_digits(n)
    }
}

/// A one-character string slice holding the digit `d`.
fn digit_str(d: u64) -> (r: &'static str)
    requires
        d < 10,
    ensures
        r@ == seq![digit_char(d as nat)],
{
    let digits = "0123456789";
    proof {
        reveal_strlit("0123456789");
        assert(is_ascii(digits));
    }
    let r = digits.substring_ascii(d as usize, d as usize + 1);
    proof {
        assert(r@ =~= seq![digit_char(d as nat)]);
    }
    r
}

/// The decimal digits of `n` as a string.
pub fn decimal_string(n: u64) -> (s: String)
    ensures
        s@ == dec_digits(n as nat),
    decreases n,
{
    if n < 10 {
        String::from_str(digit_str(n))
    } else {
        let s = decimal_string(n / 10).concat(digit_str(n % 10));
        proof {
            assert(s@ =~= dec_digits(n as nat));
        }
        s
    }
}

/// The magnitude of a year as an unsigned value; total, also at the
/// smallest representable year.
pub fn magnitude(year: i32) -> (m: u64)
    ensures
        m == abs_int(year as int),
{
    let y: i64 = year as i64;
    if y < 0 {
        (-y) as u64
    } else {
        y as u64
    }
}

/// The signed decimal form of a year.
pub fn signed_string(year: i32) -> (s: String)
    ensures
        s@ == int_digits(year as int),
{
    let m = magnitude(year);
    let body = decimal_string(m);
    if year < 0 {
        String::from_str("-").concat(body.as_str())
    } else {
        body
    }
}

/// A nonzero number is rendered without a leading zero.
pub proof fn lemma_no_leading_zero(n: nat)
    requires
        n > 0,
    ensures
        dec_digits(n).len() >= 1,
        dec_digits(n)[0] != '0',
    decreases n,
{
    if n >= 10 {
        lemma_no_leading_zero(n / 10);
    }
}

/// A signed year is rendered with its sign and without zero padding:
/// the first character of a nonzero year is never `'0'`.
pub proof fn lemma_year_not_padded(i: int)
    requires
        i != 0,
    ensures
        int_digits(i).len() >= 1,
        int_digits(i)[0] != '0',
{
    reveal_strlit("-");
    lemma_no_leading_zero(abs_int(i));
}

/// A padded number below one hundred takes exactly two characters.
pub proof fn lemma_pad2_two_chars(n: nat)
    requires
        n < 100,
    ensures
        pad2(n).len() == 2,
{
    reveal_strlit("0");
    if n >= 10 {
        assert(dec_digits(n) == dec_digits(n / 10).push(digit_char(n % 10)));
    }
}

/// A month or day number padded to at least two digits.
pub fn padded2_string(n: u8) -> (s: String)
    ensures
        s@ == pad2(n as nat),
{
    if n < 10 {
        String::from_str("0").concat(decimal_string(n as u64).as_str())
    } else {
        decimal_string(n as u64)
    }
}

} // verus!
