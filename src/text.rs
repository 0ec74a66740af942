//! Small text helpers: building strings character by character and writing
//! integers in decimal.
use vstd::prelude::*;
use crate::json::hex_digit;

verus! {

/// Relies on `String::push`: appends one character.
#[verifier::external_body]
pub(crate) fn push_char(s: &mut String, c: char)
    ensures
        final(s)@ == old(s)@.push(c),
{
    s.push(c);
}

/// The decimal digits of a natural number, most significant first.
pub open spec fn digits(n: nat) -> Seq<char>
    decreases n,
{
    if n < 10 {
        seq![hex_digit(n as int)]
    } else {
        digits(n / 10).push(hex_digit((n % 10) as int))
    }
}

/// An integer as JSON writes it: an optional minus sign and its digits.
pub open spec fn decimal(n: int) -> Seq<char> {
    if n < 0 {
        seq!['-'] + digits((-n) as nat)
    } else {
        digits(n as nat)
    }
}

fn digit_char(d: u64) -> (c: char)
    requires
        d < 10,
    ensures
        c == hex_digit(d as int),
{
    if d == 0 {
        '0'
    } else if d == 1 {
        '1'
    } else if d == 2 {
        '2'
    } else if d == 3 {
        '3'
    } else if d == 4 {
        '4'
    } else if d == 5 {
        '5'
    } else if d == 6 {
        '6'
    } else if d == 7 {
        '7'
    } else if d == 8 {
        '8'
    } else {
        '9'
    }
}

fn push_digits(out: &mut String, n: u64)
    ensures
        final(out)@ == old(out)@ + digits(n as nat),
    decreases n,
{
    if n >= 10 {
        push_digits(out, n / 10);
        push_char(out, digit_char(n % 10));
        assert(out@ =~= old(out)@ + digits(n as nat));
    } else {
        push_char(out, digit_char(n));
        assert(out@ =~= old(out)@ + digits(n as nat));
    }
}

/// Appends the decimal text of a natural number to `out`.
pub fn push_nat(out: &mut String, n: u64)
    ensures
        final(out)@ == old(out)@ + decimal(n as int),
{
    push_digits(out, n);
}

/// The pieces, with `sep` between each two.
pub open spec fn join(items: Seq<Seq<char>>, sep: Seq<char>) -> Seq<char>
    decreases items.len(),
{
    if items.len() == 0 {
        Seq::empty()
    } else if items.len() == 1 {
        items[0]
    } else {
        join(items.drop_last(), sep) + sep + items.last()
    }
}

/// Appends the decimal text of `n` to `out`.
pub fn push_decimal(out: &mut String, n: i64)
    ensures
        final(out)@ == old(out)@ + decimal(n as int),
{
    if n < 0 {
        push_char(out, '-');
        let magnitude: u64 = (0i128 - n as i128) as u64;
        push_digits(out, magnitude);
        assert(out@ =~= old(out)@ + decimal(n as int));
    } else {
        push_digits(out, n as u64);
    }
}

/// The decimal text of `n`, as JSON writes an integer.
pub fn int_text(n: i64) -> (r: String)
    ensures
        r@ == decimal(n as int),
{
    let mut out = String::new();
    push_decimal(&mut out, n);
    assert(out@ =~= decimal(n as int));
    out
}

/// Appends the characters of `t` to `out`.
pub fn push_text(out: &mut String, t: &str)
    ensures
        final(out)@ == old(out)@ + t@,
{
    out.append(t);
}

} // verus!
