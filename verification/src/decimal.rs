//! Decimal text of unsigned numbers, of fixed-point numbers with one or two
//! places, and rounding of a quotient to the nearest whole number.

use vstd::prelude::*;
use vstd::string::*;

verus! {

/// The character of one decimal digit.
pub open spec fn digit(d: nat) -> char
    recommends
        d < 10,
{
    if d == 0 {
        '0'
    } else if d == 1 {
        '1'
    } else if d == 2 {
        '2'
    } else if d == 3 {
        '3'
    } else if d == 4 {
        '4'
    } else if d == 5 {
        '5'
    } else if d == 6 {
        '6'
    } else if d == 7 {
        '7'
    } else if d == 8 {
        '8'
    } else {
        '9'
    }
}

/// The decimal numeral of `n`, without sign or leading zeros.
pub open spec fn decimal(n: nat) -> Seq<char>
    decreases n,
{
    if n < 10 {
        seq![digit(n)]
    } else {
        decimal(n / 10).push(digit(n % 10))
    }
}

/// `v` tenths, written with one place after the point.
pub open spec fn tenths(v: nat) -> Seq<char> {
    decimal(v / 10) + seq!['.', digit(v % 10)]
}

/// `v` hundredths, written with two places after the point.
pub open spec fn hundredths(v: nat) -> Seq<char> {
    decimal(v / 100) + seq!['.', digit((v / 10) % 10), digit(v % 10)]
}

/// `text` moved to the right end of a field of `width` characters; a text
/// that fills the field or is longer stays as it is.
pub open spec fn right_aligned(text: Seq<char>, width: nat) -> Seq<char> {
    if text.len() < width {
        Seq::new((width - text.len()) as nat, |i: int| ' ') + text
    } else {
        text
    }
}

/// `numer / denom` rounded to the nearest whole number, a tie going to the
/// even neighbour.
pub open spec fn rounded_quotient(numer: nat, denom: nat) -> nat
    recommends
        denom > 0,
{
    let q = numer / denom;
    let r = numer % denom;
    if 2 * r < denom || (2 * r == denom && q % 2 == 0) {
        q
    } else {
        q + 1
    }
}

/// A numeral has one character per decimal digit: one below ten, more from
/// ten on.
pub proof fn lemma_decimal_len(n: nat)
    ensures
        decimal(n).len() >= 1,
        decimal(n).len() == 1 <==> n < 10,
    decreases n,
{
    if n >= 10 {
        lemma_decimal_len(n / 10);
    }
}

/// The rounded quotient is a nearest whole number: it misses the exact
/// quotient by half at most.
pub proof fn lemma_rounded_quotient_nearest(numer: nat, denom: nat)
    requires
        denom > 0,
    ensures
        2 * (rounded_quotient(numer, denom) * denom - numer) <= denom,
        2 * (numer - rounded_quotient(numer, denom) * denom) <= denom,
{
    let q = numer / denom;
    let r = numer % denom;
    assert(numer == q * denom + r && r < denom) by (nonlinear_arith)
        requires
            denom > 0,
            q == numer / denom,
            r == numer % denom,
    ;
    assert((q + 1) * denom == q * denom + denom) by (nonlinear_arith);
}

fn digit_text(d: u64) -> (r: &'static str)
    requires
        d < 10,
    ensures
        r@ == seq![digit(d as nat)],
{
    proof {
        reveal_strlit("0");
        reveal_strlit("1");
        reveal_strlit("2");
        reveal_strlit("3");
        reveal_strlit("4");
        reveal_strlit("5");
        reveal_strlit("6");
        reveal_strlit("7");
        reveal_strlit("8");
        reveal_strlit("9");
    }
    let r = if d == 0 {
        "0"
    } else if d == 1 {
        "1"
    } else if d == 2 {
        "2"
    } else if d == 3 {
        "3"
    } else if d == 4 {
        "4"
    } else if d == 5 {
        "5"
    } else if d == 6 {
        "6"
    } else if d == 7 {
        "7"
    } else if d == 8 {
        "8"
    } else {
        "9"
    };
    assert(r@ =~= seq![digit(d as nat)]);
    r
}

/// Appends the decimal numeral of `n` to `text`.
pub fn push_decimal(text: &mut String, n: u64)
    ensures
        final(text)@ == old(text)@ + decimal(n as nat),
    decreases n,
{
    if n >= 10 {
        push_decimal(text, n / 10);
    }
    text.append(digit_text(n % 10));
    assert(text@ =~= old(text)@ + decimal(n as nat));
}

/// Appends `v` tenths, with one place after the point.
pub fn push_tenths(text: &mut String, v: u64)
    ensures
        final(text)@ == old(text)@ + tenths(v as nat),
{
    push_decimal(text, v / 10);
    text.append(".");
    text.append(digit_text(v % 10));
    proof {
        reveal_strlit(".");
        assert(text@ =~= old(text)@ + tenths(v as nat));
    }
}

/// Appends `v` hundredths, with two places after the point.
pub fn push_hundredths(text: &mut String, v: u64)
    ensures
        final(text)@ == old(text)@ + hundredths(v as nat),
{
    push_decimal(text, v / 100);
    text.append(".");
    text.append(digit_text((v / 10) % 10));
    text.append(digit_text(v % 10));
    proof {
        reveal_strlit(".");
        assert(text@ =~= old(text)@ + hundredths(v as nat));
    }
}

/// The decimal numeral of `n` as a string of its own.
pub fn decimal_text(n: u64) -> (r: String)
    ensures
        r@ == decimal(n as nat),
{
    let mut text = String::new();
    push_decimal(&mut text, n);
    assert(text@ =~= decimal(n as nat));
    text
}

/// Divides and rounds to the nearest whole number, ties to even.
pub fn divide_rounded(numer: u128, denom: u128) -> (r: u128)
    requires
        denom > 0,
    ensures
        r == rounded_quotient(numer as nat, denom as nat),
{
    let q: u128 = numer / denom;
    let r: u128 = numer % denom;
    let up = r > denom - r || (r == denom - r && q % 2 == 1);
    if up {
        assert(q < u128::MAX) by (nonlinear_arith)
            requires
                q == numer / denom,
                r == numer % denom,
                r > 0,
                denom > 0,
                numer <= u128::MAX,
        {
            if denom == 1 {
                assert(numer % denom == 0);
            } else {
                assert(numer / denom <= numer / 2);
            }
        }
        q + 1
    } else {
        q
    }
}

} // verus!
