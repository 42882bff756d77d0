//! Digit strings of unsigned numbers in the bases the serial layer prints:
//! binary, octal, decimal and hexadecimal.

use vstd::prelude::*;

use vstd::arithmetic::div_mod::lemma_div_decreases;

verus! {

/// The ASCII digit for `d`, lowercase above nine as the hexadecimal
/// formatter prints them.
pub open spec fn spec_digit(d: u8) -> u8 {
    if d < 10 {
        (0x30 + d) as u8
    } else {
        (0x61 + (d - 10)) as u8
    }
}

/// The ASCII digits of `n` in base `base`, most significant first, with no
/// leading zeros; zero prints as a single `'0'`.
pub open spec fn spec_digits(n: nat, base: nat) -> Seq<u8>
    recommends
        2 <= base <= 16,
    decreases n,
    when base >= 2
    via spec_digits_decreases
{
    if n < base {
        seq![spec_digit(n as u8)]
    } else {
        spec_digits(n / base, base).push(spec_digit((n % base) as u8))
    }
}

#[via_fn]
proof fn spec_digits_decreases(n: nat, base: nat) {
    if base >= 2 && n >= base {
        lemma_div_decreases(n as int, base as int);
    }
}

/// The ASCII digit for `d`, as a runtime value.
pub fn digit_of(d: u8) -> (c: u8)
    requires
        d < 16,
    ensures
        c == spec_digit(d),
{
    if d < 10 {
        0x30 + d
    } else {
        0x61 + (d - 10)
    }
}

/// Appends the digits of `v` in base `base` to `out`, most significant
/// first.
fn push_digits(out: &mut Vec<u8>, v: u128, base: u128)
    requires
        2 <= base <= 16,
    ensures
        final(out)@ == old(out)@ + spec_digits(v as nat, base as nat),
    decreases v,
{
    if v < base {
        out.push(digit_of(v as u8));
    } else {
        proof {
            lemma_div_decreases(v as int, base as int);
        }
        push_digits(out, v / base, base);
        out.push(digit_of((v % base) as u8));
        proof {
            assert(final(out)@ =~= old(out)@ + spec_digits(v as nat, base as nat));
        }
    }
}

/// The ASCII digits of `value` in base `base`, most significant first, with
/// no leading zeros; zero formats as `"0"`.
pub fn format_radix(value: u128, base: u128) -> (r: Vec<u8>)
    requires
        2 <= base <= 16,
    ensures
        r@ == spec_digits(value as nat, base as nat),
{
    let mut out: Vec<u8> = Vec::new();
    push_digits(&mut out, value, base);
    out
}

} // verus!
