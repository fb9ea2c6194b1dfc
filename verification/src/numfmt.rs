//! Decimal rendering of the integers that appear in command-line arguments:
//! plain unsigned and signed values, and fixed-point values held in
//! thousandths (used for decibel gains and the noise-reduction amount).
use vstd::prelude::*;

verus! {

/// The character for one decimal digit.
pub open spec fn spec_digit_char(d: nat) -> char {
    if d == 0 {
        '0'
    } else if d == 1 {
        '1'
    } else if d == 2 {
        '2'
    } else if d == 3 {
        '3'
    } else if d == 4 {
        '4'
    } else if d == 5 {
        '5'
    } else if d == 6 {
        '6'
    } else if d == 7 {
        '7'
    } else if d == 8 {
        '8'
    } else {
        '9'
    }
}

/// The decimal digits of `n`, most significant first, with no leading zeros
/// (a single `'0'` for zero).
pub open spec fn spec_dec_digits(n: nat) -> Seq<char>
    decreases n,
{
    if n < 10 {
        seq![spec_digit_char(n)]
    } else {
        spec_dec_digits(n / 10).push(spec_digit_char(n % 10))
    }
}

/// The decimal rendering of a signed value: a `'-'` before the digits of the
/// magnitude when the value is negative.
pub open spec fn spec_signed_dec(v: int) -> Seq<char> {
    if v < 0 {
        seq!['-'] + spec_dec_digits((-v) as nat)
    } else {
        spec_dec_digits(v as nat)
    }
}

/// One digit as a one-character string slice.
fn digit_str(d: u64) -> (r: &'static str)
    requires
        d < 10,
    ensures
        r@ == seq![spec_digit_char(d as nat)],
{
    proof {
        reveal_strlit("0");
        reveal_strlit("1");
        reveal_strlit("2");
        reveal_strlit("3");
        reveal_strlit("4");
        reveal_strlit("5");
        reveal_strlit("6");
        reveal_strlit("7");
        reveal_strlit("8");
        reveal_strlit("9");
    }
    if d == 0 {
        "0"
    } else if d == 1 {
        "1"
    } else if d == 2 {
        "2"
    } else if d == 3 {
        "3"
    } else if d == 4 {
        "4"
    } else if d == 5 {
        "5"
    } else if d == 6 {
        "6"
    } else if d == 7 {
        "7"
    } else if d == 8 {
        "8"
    } else {
        "9"
    }
}

/// Renders `n` in decimal.
pub fn u64_to_dec_string(n: u64) -> (s: String)
    ensures
        s@ == spec_dec_digits(n as nat),
    decreases n,
{
    if n < 10 {
        let mut s = String::new();
        s.append(digit_str(n));
        s
    } else {
        let mut s = u64_to_dec_string(n / 10);
        s.append(digit_str(n % 10));
        s
    }
}

/// Renders a signed value in decimal.
pub fn i64_to_dec_string(v: i64) -> (s: String)
    requires
        v != i64::MIN,
    ensures
        s@ == spec_signed_dec(v as int),
{
    proof {
        reveal_strlit("-");
    }
    if v < 0 {
        let mut s = String::from_str("-");
        let rest = u64_to_dec_string((-v) as u64);
        s.append(rest.as_str());
        s
    } else {
        u64_to_dec_string(v as u64)
    }
}

/// The fractional suffix of a fixed-point value held in thousandths: empty
/// when the fraction is zero, else a point followed by the fraction's digits
/// with trailing zeros dropped (`50` renders as `.05`, `210` as `.21`).
pub open spec fn spec_frac3(frac: nat) -> Seq<char>
    recommends
        frac < 1000,
{
    if frac == 0 {
        Seq::empty()
    } else if frac % 10 != 0 {
        seq!['.', spec_digit_char(frac / 100), spec_digit_char((frac / 10) % 10), spec_digit_char(frac % 10)]
    } else if frac % 100 != 0 {
        seq!['.', spec_digit_char(frac / 100), spec_digit_char((frac / 10) % 10)]
    } else {
        seq!['.', spec_digit_char(frac / 100)]
    }
}

/// The decimal rendering of a value held in thousandths, as the external
/// tools expect a gain or amount: optional sign, whole part, and the
/// fractional suffix of [`spec_frac3`] (`0` renders as `0`, `-3500` as
/// `-3.5`, `210` as `0.21`).
pub open spec fn spec_fixed3(v: int) -> Seq<char> {
    let m = if v < 0 {
        (-v) as nat
    } else {
        v as nat
    };
    let sign: Seq<char> = if v < 0 {
        seq!['-']
    } else {
        Seq::empty()
    };
    sign + spec_dec_digits(m / 1000) + spec_frac3(m % 1000)
}

/// Renders a fixed-point value held in thousandths.
pub fn fixed3_to_string(v: i64) -> (s: String)
    requires
        v != i64::MIN,
    ensures
        s@ == spec_fixed3(v as int),
{
    proof {
        reveal_strlit("-");
        reveal_strlit(".");
    }
    let m: u64 = if v < 0 {
        (-v) as u64
    } else {
        v as u64
    };
    let mut s = if v < 0 {
        String::from_str("-")
    } else {
        String::new()
    };
    let whole = u64_to_dec_string(m / 1000);
    s.append(whole.as_str());
    let frac: u64 = m % 1000;
    if frac != 0 {
        s.append(".");
        s.append(digit_str(frac / 100));
        if frac % 10 != 0 {
            s.append(digit_str((frac / 10) % 10));
            s.append(digit_str(frac % 10));
        } else if frac % 100 != 0 {
            s.append(digit_str((frac / 10) % 10));
        }
    }
    proof {
        assert(s@ =~= spec_fixed3(v as int));
    }
    s
}

} // verus!
