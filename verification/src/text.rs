//! Writing numbers as text, as Rust's `{}` and `{:#x}` formats write them.
use vstd::prelude::*;

verus! {

/// The character of a digit below 16: `0`-`9`, then `a`-`f`.
pub open spec fn digit_char(d: nat) -> char {
    if d < 10 {
        (48 + d) as char
    } else {
        (87 + d) as char
    }
}

/// The decimal digits of `n`, most significant first, with no leading zeros (`0` for zero).
pub open spec fn dec_digits(n: nat) -> Seq<char>
    decreases n,
{
    if n < 10 {
        seq![digit_char(n)]
    } else {
        dec_digits(n / 10) + seq![digit_char(n % 10)]
    }
}

/// The lowercase hexadecimal digits of `n`, most significant first, with no leading zeros.
pub open spec fn hex_digits(n: nat) -> Seq<char>
    decreases n,
{
    if n < 16 {
        seq![digit_char(n)]
    } else {
        hex_digits(n / 16) + seq![digit_char(n % 16)]
    }
}

/// A signed number in decimal, with a leading `-` when negative (Rust's `{}`).
pub open spec fn signed_text(v: int) -> Seq<char> {
    if v < 0 {
        seq!['-'] + dec_digits((-v) as nat)
    } else {
        dec_digits(v as nat)
    }
}

/// An unsigned number in hexadecimal with the `0x` prefix (Rust's `{:#x}`).
pub open spec fn hex_text(n: nat) -> Seq<char> {
    seq!['0', 'x'] + hex_digits(n)
}

/// Appends a character to a string. Trusted: it calls `String::push`, which appends the
/// character at the end of the string and changes nothing else.
#[verifier::external_body]
pub(crate) fn push_char(s: &mut String, c: char)
    ensures
        final(s)@ == old(s)@.push(c),
{
    s.push(c);
}

/// The character of a digit below 16.
fn digit(d: u32) -> (c: char)
    requires
        d < 16,
    ensures
        c == digit_char(d as nat),
{
    match d {
        0 => '0',
        1 => '1',
        2 => '2',
        3 => '3',
        4 => '4',
        5 => '5',
        6 => '6',
        7 => '7',
        8 => '8',
        9 => '9',
        10 => 'a',
        11 => 'b',
        12 => 'c',
        13 => 'd',
        14 => 'e',
        _ => 'f',
    }
}

/// Appends `n` in decimal.
pub fn push_decimal(s: &mut String, n: u32)
    ensures
        final(s)@ == old(s)@ + dec_digits(n as nat),
    decreases n,
{
    if n >= 10 {
        push_decimal(s, n / 10);
    }
    push_char(s, digit(n % 10));
    proof {
        assert(final(s)@ =~= old(s)@ + dec_digits(n as nat));
    }
}

/// Appends the hexadecimal digits of `n`.
fn push_hex_digits(s: &mut String, n: u32)
    ensures
        final(s)@ == old(s)@ + hex_digits(n as nat),
    decreases n,
{
    if n >= 16 {
        push_hex_digits(s, n / 16);
    }
    push_char(s, digit(n % 16));
    proof {
        assert(final(s)@ =~= old(s)@ + hex_digits(n as nat));
    }
}

/// Appends `v` in decimal, with a `-` when negative.
pub fn push_signed(s: &mut String, v: i32)
    ensures
        final(s)@ == old(s)@ + signed_text(v as int),
{
    if v < 0 {
        push_char(s, '-');
        let magnitude = (-(v as i64)) as u32;
        push_decimal(s, magnitude);
        proof {
            assert(final(s)@ =~= old(s)@ + signed_text(v as int));
        }
    } else {
        push_decimal(s, v as u32);
    }
}

/// Appends `n` in hexadecimal with the `0x` prefix.
pub fn push_hex(s: &mut String, n: u32)
    ensures
        final(s)@ == old(s)@ + hex_text(n as nat),
{
    push_char(s, '0');
    push_char(s, 'x');
    push_hex_digits(s, n);
    proof {
        assert(final(s)@ =~= old(s)@ + hex_text(n as nat));
    }
}

} // verus!
