//! Numbers as text: the digits of a number in a base, at a least width.

use vstd::prelude::*;

verus! {

/// The character of one digit: `0` to `9`, then `a` to `f`.
pub open spec fn digit_char(d: int) -> char {
    if d == 0 {
        '0'
    } else if d == 1 {
        '1'
    } else if d == 2 {
        '2'
    } else if d == 3 {
        '3'
    } else if d == 4 {
        '4'
    } else if d == 5 {
        '5'
    } else if d == 6 {
        '6'
    } else if d == 7 {
        '7'
    } else if d == 8 {
        '8'
    } else if d == 9 {
        '9'
    } else if d == 10 {
        'a'
    } else if d == 11 {
        'b'
    } else if d == 12 {
        'c'
    } else if d == 13 {
        'd'
    } else if d == 14 {
        'e'
    } else {
        'f'
    }
}

/// `count` times the character `c`.
pub open spec fn repeat(c: char, count: nat) -> Seq<char> {
    Seq::new(count, |i: int| c)
}

/// The digits of `n` in `base`, most significant first, with zeros in front
/// where there are fewer than `width` of them. Zero is written `0`.
pub open spec fn numeral(n: nat, base: nat, width: nat) -> Seq<char>
    decreases n,
    via numeral_decreases
{
    let narrower = if width > 0 {
        (width - 1) as nat
    } else {
        0
    };
    if n < base || base < 2 {
        repeat('0', narrower).push(digit_char(n as int))
    } else {
        numeral(n / base, base, narrower).push(digit_char((n % base) as int))
    }
}

#[via_fn]
proof fn numeral_decreases(n: nat, base: nat, width: nat) {
    if n >= base && base >= 2 {
        lemma_quotient_smaller(n, base);
    }
}

/// Division by a base of two or more makes a number smaller, unless it is
/// zero.
proof fn lemma_quotient_smaller(n: nat, base: nat)
    requires
        base >= 2,
        n > 0,
    ensures
        n / base < n,
{
    assert(n / base < n) by (nonlinear_arith)
        requires
            base >= 2,
            n > 0,
    ;
}

/// `n` in lowercase hexadecimal, with as many digits as it takes.
pub open spec fn hex(n: nat) -> Seq<char> {
    numeral(n, 16, 1)
}

/// `n` in lowercase hexadecimal, with zeros in front up to `width` digits.
pub open spec fn hex_padded(n: nat, width: nat) -> Seq<char> {
    numeral(n, 16, width)
}

/// `n` in decimal.
pub open spec fn decimal(n: nat) -> Seq<char> {
    numeral(n, 10, 1)
}

/// `String::push`: the string gains the character at its end.
#[verifier::external_body]
pub(crate) fn push_char(s: &mut String, c: char)
    ensures
        final(s)@ == old(s)@.push(c),
{
    s.push(c)
}

/// The character of the digit `d`.
pub fn digit(d: u8) -> (c: char)
    ensures
        c == digit_char(d as int),
{
    match d {
        0 => '0',
        1 => '1',
        2 => '2',
        3 => '3',
        4 => '4',
        5 => '5',
        6 => '6',
        7 => '7',
        8 => '8',
        9 => '9',
        10 => 'a',
        11 => 'b',
        12 => 'c',
        13 => 'd',
        14 => 'e',
        _ => 'f',
    }
}

/// Appends `count` times the character `c`.
pub fn push_repeat(s: &mut String, c: char, count: usize)
    ensures
        final(s)@ == old(s)@ + repeat(c, count as nat),
{
    let mut i: usize = 0;
    while i < count
        invariant
            i <= count,
            s@ == old(s)@ + repeat(c, i as nat),
        decreases count - i,
    {
        push_char(s, c);
        i += 1;
    }
}

/// Appends the digits of `n` in `base`, at least `width` of them.
fn push_numeral(s: &mut String, n: u64, base: u8, width: usize)
    requires
        2 <= base <= 16,
    ensures
        final(s)@ == old(s)@ + numeral(n as nat, base as nat, width as nat),
    decreases n,
{
    let narrower: usize = if width > 0 {
        width - 1
    } else {
        0
    };
    if n < base as u64 {
        push_repeat(s, '0', narrower);
        push_char(s, digit(n as u8));
    } else {
        proof {
            lemma_quotient_smaller(n as nat, base as nat);
        }
        push_numeral(s, n / (base as u64), base, narrower);
        push_char(s, digit((n % (base as u64)) as u8));
    }
}

/// Appends `n` in lowercase hexadecimal.
pub fn push_hex(s: &mut String, n: u64)
    ensures
        final(s)@ == old(s)@ + hex(n as nat),
{
    push_numeral(s, n, 16, 1)
}

/// Appends `n` in lowercase hexadecimal, with zeros in front up to `width`
/// digits.
pub fn push_hex_padded(s: &mut String, n: u64, width: usize)
    ensures
        final(s)@ == old(s)@ + hex_padded(n as nat, width as nat),
{
    push_numeral(s, n, 16, width)
}

/// Appends `n` in decimal.
pub fn push_decimal(s: &mut String, n: u64)
    ensures
        final(s)@ == old(s)@ + decimal(n as nat),
{
    push_numeral(s, n, 10, 1)
}

} // verus!
