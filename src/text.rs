use vstd::prelude::*;

use crate::types::{InfoTypes, Number};

verus! {

/// The character of decimal digit `d`.
pub open spec fn digit_char(d: nat) -> char {
    if d == 0 {
        '0'
    } else if d == 1 {
        '1'
    } else if d == 2 {
        '2'
    } else if d == 3 {
        '3'
    } else if d == 4 {
        '4'
    } else if d == 5 {
        '5'
    } else if d == 6 {
        '6'
    } else if d == 7 {
        '7'
    } else if d == 8 {
        '8'
    } else {
        '9'
    }
}

/// The decimal digits of `n`, without leading zeros.
pub open spec fn decimal(n: nat) -> Seq<char>
    decreases n,
{
    if n < 10 {
        seq![digit_char(n)]
    } else {
        decimal(n / 10).push(digit_char(n % 10))
    }
}

/// `i` in decimal, with a leading minus sign where it is negative.
pub open spec fn signed_text(i: int) -> Seq<char> {
    if i < 0 {
        seq!['-'] + decimal((-i) as nat)
    } else {
        decimal(i as nat)
    }
}

/// The fractional digits of `frac` thousandths (1 to 999), without
/// trailing zeros.
pub open spec fn fraction_text(frac: nat) -> Seq<char> {
    let (a, b, c) = (frac / 100, frac / 10 % 10, frac % 10);
    if c != 0 {
        seq![digit_char(a), digit_char(b), digit_char(c)]
    } else if b != 0 {
        seq![digit_char(a), digit_char(b)]
    } else {
        seq![digit_char(a)]
    }
}

/// A value held in thousandths, written as a decimal number with at most
/// three fractional digits and none that are trailing zeros.
pub open spec fn fixed_text(f: int) -> Seq<char> {
    let m: nat = if f < 0 {
        (-f) as nat
    } else {
        f as nat
    };
    let sign = if f < 0 {
        seq!['-']
    } else {
        Seq::empty()
    };
    if m % 1000 == 0 {
        sign + decimal(m / 1000)
    } else {
        sign + decimal(m / 1000) + seq!['.'] + fraction_text(m % 1000)
    }
}

/// How a number is written.
pub open spec fn number_text(n: Number) -> Seq<char> {
    match n {
        Number::Signed(i) => signed_text(i as int),
        Number::Unsigned(u) => decimal(u as nat),
        Number::Floating(f) => fixed_text(f as int),
    }
}

/// How a dictionary value is written: text as it is, a time as whole
/// seconds since the Unix epoch, bytes by their count, a number as
/// `number_text` writes it.
pub open spec fn info_text(v: InfoTypes) -> Seq<char> {
    match v {
        InfoTypes::String(s) => s@,
        InfoTypes::SystemTime(t) => decimal((t / 1000) as nat) + " seconds since UNIX_EPOCH"@,
        InfoTypes::Data(d) => "["@ + decimal(d@.len()) + " bytes of data]"@,
        InfoTypes::Number(n) => number_text(n),
        InfoTypes::Unsupported => "Unsupported"@,
    }
}

fn digit_str(d: u64) -> (r: &'static str)
    requires
        d < 10,
    ensures
        r@ == seq![digit_char(d as nat)],
{
    proof {
        reveal_strlit("0");
        reveal_strlit("1");
        reveal_strlit("2");
        reveal_strlit("3");
        reveal_strlit("4");
        reveal_strlit("5");
        reveal_strlit("6");
        reveal_strlit("7");
        reveal_strlit("8");
        reveal_strlit("9");
    }
    if d == 0 {
        "0"
    } else if d == 1 {
        "1"
    } else if d == 2 {
        "2"
    } else if d == 3 {
        "3"
    } else if d == 4 {
        "4"
    } else if d == 5 {
        "5"
    } else if d == 6 {
        "6"
    } else if d == 7 {
        "7"
    } else if d == 8 {
        "8"
    } else {
        "9"
    }
}

/// `n` in decimal.
pub fn decimal_text(n: u64) -> (r: String)
    ensures
        r@ == decimal(n as nat),
{
    let mut rem: u64 = n;
    let mut acc = String::from_str("");
    proof {
        reveal_strlit("");
    }
    loop
        invariant_except_break
            decimal(n as nat) == decimal(rem as nat) + acc@,
        ensures
            decimal(n as nat) == acc@,
        decreases rem,
    {
        let d = digit_str(rem % 10);
        let ghost before = acc@;
        acc = String::from_str(d).concat(acc.as_str());
        assert(acc@ == seq![digit_char((rem % 10) as nat)] + before);
        if rem < 10 {
            assert(decimal(rem as nat) == seq![digit_char(rem as nat)]);
            break;
        }
        assert(decimal(rem as nat) == decimal((rem / 10) as nat).push(digit_char((rem % 10) as nat)));
        assert(decimal((rem / 10) as nat).push(digit_char((rem % 10) as nat)) + before
            =~= decimal((rem / 10) as nat) + (seq![digit_char((rem % 10) as nat)] + before));
        rem = rem / 10;
    }
    acc
}

fn fraction_str(frac: u64) -> (r: String)
    requires
        0 < frac < 1000,
    ensures
        r@ == fraction_text(frac as nat),
{
    let a = digit_str(frac / 100);
    let b = digit_str(frac / 10 % 10);
    let c = digit_str(frac % 10);
    if frac % 10 != 0 {
        let r = String::from_str(a).concat(b).concat(c);
        assert(r@ =~= fraction_text(frac as nat));
        r
    } else if frac / 10 % 10 != 0 {
        let r = String::from_str(a).concat(b);
        assert(r@ =~= fraction_text(frac as nat));
        r
    } else {
        String::from_str(a)
    }
}

/// A value held in thousandths, written as a decimal number.
pub fn fixed_point_text(f: i64) -> (r: String)
    ensures
        r@ == fixed_text(f as int),
{
    let m: u64 = if f < 0 {
        (-(f as i128)) as u64
    } else {
        f as u64
    };
    let whole = decimal_text(m / 1000);
    let sign = if f < 0 {
        String::from_str("-")
    } else {
        String::from_str("")
    };
    proof {
        reveal_strlit("-");
        reveal_strlit("");
        reveal_strlit(".");
    }
    if m % 1000 == 0 {
        let r = sign.concat(whole.as_str());
        assert(r@ =~= fixed_text(f as int));
        r
    } else {
        let frac = fraction_str(m % 1000);
        let r = sign.concat(whole.as_str()).concat(".").concat(frac.as_str());
        assert(r@ =~= fixed_text(f as int));
        r
    }
}

impl Number {
    /// The number in decimal; a floating value with at most three
    /// fractional digits.
    pub fn to_text(&self) -> (r: String)
        ensures
            r@ == number_text(*self),
    {
        match self {
            Number::Signed(i) => {
                if *i < 0 {
                    proof {
                        reveal_strlit("-");
                    }
                    let digits = decimal_text((-(*i as i128)) as u64);
                    let r = String::from_str("-").concat(digits.as_str());
                    assert(r@ =~= number_text(*self));
                    r
                } else {
                    decimal_text(*i as u64)
                }
            },
            Number::Unsigned(u) => decimal_text(*u),
            Number::Floating(f) => fixed_point_text(*f),
        }
    }
}

impl InfoTypes {
    /// The value as text, for display.
    pub fn to_text(&self) -> (r: String)
        ensures
            r@ == info_text(*self),
    {
        match self {
            InfoTypes::String(s) => s.clone(),
            InfoTypes::SystemTime(t) => decimal_text(*t / 1000).concat(" seconds since UNIX_EPOCH"),
            InfoTypes::Data(d) => {
                let n = decimal_text(d.len() as u64);
                String::from_str("[").concat(n.as_str()).concat(" bytes of data]")
            },
            InfoTypes::Number(n) => n.to_text(),
            InfoTypes::Unsupported => String::from_str("Unsupported"),
        }
    }
}

} // verus!
