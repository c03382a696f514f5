//! Decimal rendering of integers and fixed-point quantities.
use vstd::prelude::*;

verus! {

/// The character of a decimal digit.
pub open spec fn digit_char(d: nat) -> char {
    if d == 0 {
        '0'
    } else if d == 1 {
        '1'
    } else if d == 2 {
        '2'
    } else if d == 3 {
        '3'
    } else if d == 4 {
        '4'
    } else if d == 5 {
        '5'
    } else if d == 6 {
        '6'
    } else if d == 7 {
        '7'
    } else if d == 8 {
        '8'
    } else {
        '9'
    }
}

/// The decimal digits of `n`, most significant first, without leading zeros
/// ("0" for zero).
pub open spec fn nat_text(n: nat) -> Seq<char>
    decreases n,
{
    if n < 10 {
        seq![digit_char(n)]
    } else {
        nat_text(n / 10) + seq![digit_char(n % 10)]
    }
}

/// The decimal text of an integer: a minus sign before the digits of a
/// negative one.
pub open spec fn int_text(n: int) -> Seq<char> {
    if n < 0 {
        seq!['-'] + nat_text((-n) as nat)
    } else {
        nat_text(n as nat)
    }
}

fn digit_str(d: u64) -> (r: &'static str)
    requires
        d < 10,
    ensures
        r@ == seq![digit_char(d as nat)],
{
    proof {
        reveal_strlit("0");
        reveal_strlit("1");
        reveal_strlit("2");
        reveal_strlit("3");
        reveal_strlit("4");
        reveal_strlit("5");
        reveal_strlit("6");
        reveal_strlit("7");
        reveal_strlit("8");
        reveal_strlit("9");
    }
    if d == 0 {
        "0"
    } else if d == 1 {
        "1"
    } else if d == 2 {
        "2"
    } else if d == 3 {
        "3"
    } else if d == 4 {
        "4"
    } else if d == 5 {
        "5"
    } else if d == 6 {
        "6"
    } else if d == 7 {
        "7"
    } else if d == 8 {
        "8"
    } else {
        "9"
    }
}

/// Appends the decimal digits of `n`.
pub fn push_nat(s: &mut String, n: u64)
    ensures
        final(s)@ == old(s)@ + nat_text(n as nat),
    decreases n,
{
    if n >= 10 {
        push_nat(s, n / 10);
    }
    s.append(digit_str(n % 10));
    assert(s@ =~= old(s)@ + nat_text(n as nat));
}

/// Appends the decimal text of `n`.
pub fn push_int(s: &mut String, n: i64)
    ensures
        final(s)@ == old(s)@ + int_text(n as int),
{
    if n < 0 {
        proof {
            reveal_strlit("-");
        }
        s.append("-");
        let m: u64 = ((-(n + 1)) as u64) + 1;
        push_nat(s, m);
        assert(s@ =~= old(s)@ + int_text(n as int));
    } else {
        push_nat(s, n as u64);
    }
}

/// The digits after the decimal point of a number of thousandths below one
/// thousand, with trailing zeros left out (empty for zero).
pub open spec fn fraction_text(f: nat) -> Seq<char> {
    let d1 = f / 100;
    let d2 = (f / 10) % 10;
    let d3 = f % 10;
    if f == 0 {
        Seq::empty()
    } else if d3 != 0 {
        seq![digit_char(d1), digit_char(d2), digit_char(d3)]
    } else if d2 != 0 {
        seq![digit_char(d1), digit_char(d2)]
    } else {
        seq![digit_char(d1)]
    }
}

/// The decimal text of a magnitude given in thousandths: the whole part, then
/// a point and the fraction where the fraction is not zero.
pub open spec fn nat_milli_text(n: nat) -> Seq<char> {
    let f = n % 1000;
    if f == 0 {
        nat_text(n / 1000)
    } else {
        nat_text(n / 1000) + seq!['.'] + fraction_text(f)
    }
}

/// The decimal text of a signed quantity given in thousandths (`-1500` reads
/// `-1.5`).
pub open spec fn milli_text(m: int) -> Seq<char> {
    if m < 0 {
        seq!['-'] + nat_milli_text((-m) as nat)
    } else {
        nat_milli_text(m as nat)
    }
}

fn push_fraction(s: &mut String, f: u64)
    requires
        0 < f < 1000,
    ensures
        final(s)@ == old(s)@ + seq!['.'] + fraction_text(f as nat),
{
    proof {
        reveal_strlit(".");
    }
    s.append(".");
    let d1: u64 = f / 100;
    let d2: u64 = (f / 10) % 10;
    let d3: u64 = f % 10;
    s.append(digit_str(d1));
    if d2 != 0 || d3 != 0 {
        s.append(digit_str(d2));
    }
    if d3 != 0 {
        s.append(digit_str(d3));
    }
    assert(s@ =~= old(s)@ + seq!['.'] + fraction_text(f as nat));
}

fn push_nat_milli(s: &mut String, n: u64)
    ensures
        final(s)@ == old(s)@ + nat_milli_text(n as nat),
{
    push_nat(s, n / 1000);
    let f: u64 = n % 1000;
    if f != 0 {
        push_fraction(s, f);
    }
    assert(s@ =~= old(s)@ + nat_milli_text(n as nat));
}

/// Appends the decimal text of a quantity given in thousandths.
pub fn push_milli(s: &mut String, m: i64)
    ensures
        final(s)@ == old(s)@ + milli_text(m as int),
{
    if m < 0 {
        proof {
            reveal_strlit("-");
        }
        s.append("-");
        let n: u64 = ((-(m + 1)) as u64) + 1;
        push_nat_milli(s, n);
        assert(s@ =~= old(s)@ + milli_text(m as int));
    } else {
        push_nat_milli(s, m as u64);
    }
}

} // verus!
