//! Fixed-point decimal rendering for the wire protocol.
//!
//! Numeric command parameters are fixed-point values counted in hundredths
//! of the unit shown on the wire, and every numeric field is rendered with
//! exactly two digits after the decimal point.

use vstd::prelude::*;
use vstd::string::StringExecFns;

verus! {

/// The character for one decimal digit.
pub open spec fn digit_char(d: int) -> char {
    if d == 0 {
        '0'
    } else if d == 1 {
        '1'
    } else if d == 2 {
        '2'
    } else if d == 3 {
        '3'
    } else if d == 4 {
        '4'
    } else if d == 5 {
        '5'
    } else if d == 6 {
        '6'
    } else if d == 7 {
        '7'
    } else if d == 8 {
        '8'
    } else {
        '9'
    }
}

pub open spec fn is_digit_char(c: char) -> bool {
    c == '0' || c == '1' || c == '2' || c == '3' || c == '4' || c == '5' || c == '6' || c == '7'
        || c == '8' || c == '9'
}

/// The decimal digits of `n`, most significant first, with no leading
/// zeros (a single `'0'` for zero).
pub open spec fn dec_chars(n: nat) -> Seq<char>
    decreases n,
{
    if n < 10 {
        seq![digit_char(n as int)]
    } else {
        dec_chars(n / 10) + seq![digit_char((n % 10) as int)]
    }
}

/// The wire text of the fixed-point value `centi` (a count of hundredths):
/// an optional minus sign, the whole part without leading zeros, a decimal
/// point, and exactly two fractional digits.
pub open spec fn fixed2_chars(centi: int) -> Seq<char> {
    let m = if centi < 0 {
        -centi
    } else {
        centi
    };
    let sign: Seq<char> = if centi < 0 {
        seq!['-']
    } else {
        Seq::<char>::empty()
    };
    sign + dec_chars((m / 100) as nat) + seq!['.'] + seq![
        digit_char(m % 100 / 10),
        digit_char(m % 10),
    ]
}

fn digit_str(d: u64) -> (s: &'static str)
    requires
        d < 10,
    ensures
        s@ == seq![digit_char(d as int)],
{
    proof {
        reveal_strlit("0");
        reveal_strlit("1");
        reveal_strlit("2");
        reveal_strlit("3");
        reveal_strlit("4");
        reveal_strlit("5");
        reveal_strlit("6");
        reveal_strlit("7");
        reveal_strlit("8");
        reveal_strlit("9");
    }
    let s: &'static str = if d == 0 {
        "0"
    } else if d == 1 {
        "1"
    } else if d == 2 {
        "2"
    } else if d == 3 {
        "3"
    } else if d == 4 {
        "4"
    } else if d == 5 {
        "5"
    } else if d == 6 {
        "6"
    } else if d == 7 {
        "7"
    } else if d == 8 {
        "8"
    } else {
        "9"
    };
    proof {
        assert(s@ =~= seq![digit_char(d as int)]);
    }
    s
}

/// The decimal digits of `n`, most significant first.
pub fn dec_string(n: u64) -> (s: String)
    ensures
        s@ == dec_chars(n as nat),
    decreases n,
{
    if n < 10 {
        String::from_str(digit_str(n))
    } else {
        let prefix = dec_string(n / 10);
        prefix.concat(digit_str(n % 10))
    }
}

/// Renders the fixed-point value `centi` (a count of hundredths) with a
/// minus sign for negative values and exactly two digits after the
/// decimal point: `5000` gives `"50.00"`, `-300` gives `"-3.00"`.
pub fn format_fixed2(centi: i64) -> (s: String)
    ensures
        s@ == fixed2_chars(centi as int),
{
    let mag: u64 = if centi < 0 {
        let wide: i128 = -(centi as i128);
        proof {
            assert(0 <= wide <= u64::MAX as i128);
        }
        wide as u64
    } else {
        centi as u64
    };
    let whole: u64 = mag / 100;
    let tens: u64 = mag % 100 / 10;
    let ones: u64 = mag % 10;
    let head: String = if centi < 0 {
        String::from_str("-")
    } else {
        String::new()
    };
    let s = head.concat(dec_string(whole).as_str()).concat(".").concat(digit_str(tens)).concat(
        digit_str(ones),
    );
    proof {
        reveal_strlit("-");
        reveal_strlit(".");
        assert(s@ =~= fixed2_chars(centi as int));
    }
    s
}

/// Every digit of `dec_chars` is a decimal digit, and there is at least one.
pub proof fn lemma_dec_chars_digits(n: nat)
    ensures
        dec_chars(n).len() >= 1,
        forall|i: int| 0 <= i < dec_chars(n).len() ==> is_digit_char(#[trigger] dec_chars(n)[i]),
    decreases n,
{
    if n >= 10 {
        lemma_dec_chars_digits(n / 10);
    }
}

/// Fixed-point rendering always carries exactly two digits after the
/// decimal point: the text ends in a decimal point followed by two digit
/// characters, and no decimal point occurs anywhere earlier.
pub proof fn lemma_fixed2_two_decimals(centi: int)
    ensures
        fixed2_chars(centi).len() >= 4,
        fixed2_chars(centi)[fixed2_chars(centi).len() - 3] == '.',
        is_digit_char(fixed2_chars(centi)[fixed2_chars(centi).len() - 2]),
        is_digit_char(fixed2_chars(centi)[fixed2_chars(centi).len() - 1]),
        forall|i: int|
            0 <= i < fixed2_chars(centi).len() - 3 ==> #[trigger] fixed2_chars(centi)[i] != '.',
{
    let m = if centi < 0 {
        -centi
    } else {
        centi
    };
    lemma_dec_chars_digits((m / 100) as nat);
}

} // verus!
