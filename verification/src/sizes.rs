//! Human-readable sizes.
//!
//! A size is shown as a binary floating-point number of 53 significant bits
//! would show it: the byte count is first rounded to the nearest such
//! number, then divided by the unit and rounded to two decimals, ties going
//! to the even neighbour both times. All of it is integer arithmetic here.

use crate::text::{concat2, decimal, decimal_text, digit, digit_char, push_char};
use vstd::arithmetic::div_mod::{lemma_div_denominator, lemma_fundamental_div_mod};
use vstd::prelude::*;
use vstd::string::*;

verus! {

/// The least count that no longer fits 53 bits.
pub const MANTISSA_LIMIT: u64 = 0x20_0000_0000_0000;

/// `num / den`, rounded to the nearest integer, a tie going to the even one.
pub open spec fn round_half_even(num: nat, den: nat) -> nat
    recommends
        den > 0,
{
    let q = num / den;
    let r = num % den;
    if 2 * r > den || (2 * r == den && q % 2 == 1) {
        q + 1
    } else {
        q
    }
}

/// The spacing of the numbers of 53 significant bits around `b`: 1 below
/// 2^53, and doubling with each further bit.
pub open spec fn spacing(b: nat) -> nat
    decreases b,
{
    if b < MANTISSA_LIMIT {
        1
    } else {
        2 * spacing(b / 2)
    }
}

/// `b` rounded to the nearest number of 53 significant bits.
pub open spec fn rounded_count(b: nat) -> nat {
    round_half_even(b, spacing(b)) * spacing(b)
}

/// The number of bytes in the unit of index `k`: KB, MB, GB, TB for 1 to 4.
pub open spec fn unit_size(k: nat) -> nat {
    if k == 1 {
        0x400
    } else if k == 2 {
        0x10_0000
    } else if k == 3 {
        0x4000_0000
    } else {
        0x100_0000_0000
    }
}

/// The name of the unit of index `k`.
pub open spec fn unit_name(k: nat) -> Seq<char> {
    if k == 1 {
        "KB"@
    } else if k == 2 {
        "MB"@
    } else if k == 3 {
        "GB"@
    } else {
        "TB"@
    }
}

/// The largest unit, of KB to TB, that `f` reaches.
pub open spec fn unit_index(f: nat) -> nat {
    if f < 0x10_0000 {
        1
    } else if f < 0x4000_0000 {
        2
    } else if f < 0x100_0000_0000 {
        3
    } else {
        4
    }
}

/// A count of hundredths as a number with two decimals.
pub open spec fn two_decimals(h: nat) -> Seq<char> {
    decimal_text(h / 100) + seq!['.', digit_char(h % 100 / 10), digit_char(h % 10)]
}

/// The text for a size of `bytes` bytes: below 1024 the count itself with
/// the unit `B`; from there on the count in the largest unit it reaches,
/// with two decimals.
pub open spec fn size_text(bytes: nat) -> Seq<char> {
    if bytes < 1024 {
        decimal_text(bytes) + " B"@
    } else {
        let f = rounded_count(bytes);
        let k = unit_index(f);
        two_decimals(round_half_even(f * 100, unit_size(k))) + " "@ + unit_name(k)
    }
}

fn divide_half_even(num: u128, den: u128) -> (r: u128)
    requires
        0 < den <= 0x1000_0000_0000,
        num <= 0x1_0000_0000_0000_0000_0000,
    ensures
        r == round_half_even(num as nat, den as nat),
        r <= num / den + 1,
{
    let q = num / den;
    let r = num % den;
    if 2 * r > den || (2 * r == den && q % 2 == 1) {
        q + 1
    } else {
        q
    }
}

fn spacing_of(bytes: u64) -> (u: u64)
    ensures
        u == spacing(bytes as nat),
        0 < u <= 4096,
        bytes / u < MANTISSA_LIMIT,
{
    let mut u: u64 = 1;
    while bytes / u >= MANTISSA_LIMIT
        invariant
            0 < u <= 4096,
            spacing(bytes as nat) == u * spacing((bytes / u) as nat),
        decreases bytes / u,
    {
        proof {
            let b = bytes as int;
            let d = u as int;
            lemma_div_denominator(b, d, 2);
            lemma_fundamental_div_mod(b, d);
            assert(d * (b / d) <= b);
            assert(d * 0x20_0000_0000_0000 <= d * (b / d)) by (nonlinear_arith)
                requires
                    0x20_0000_0000_0000 <= b / d,
                    d > 0,
            ;
            assert(d < 2048);
            assert(spacing((bytes / u) as nat) == 2 * spacing(((bytes / u) / 2) as nat));
            assert(u * (2 * spacing(((bytes / u) / 2) as nat)) == (u * 2) * spacing(
                (bytes / (u * 2) as u64) as nat,
            )) by (nonlinear_arith)
                requires
                    (bytes / u) / 2 == bytes / ((u * 2) as u64),
            ;
            assert((b / d) / 2 < b / d);
        }
        u = u * 2;
    }
    assert(spacing((bytes / u) as nat) == 1);
    assert(u * 1 == u);
    u
}

/// Formats a byte count as a human-readable string, such as `512 B`,
/// `1.50 KB` or `1.15 GB`.
pub fn format_size(bytes: u64) -> (s: String)
    ensures
        s@ == size_text(bytes as nat),
{
    if bytes < 1024 {
        let n = decimal(bytes as u128);
        return concat2(n.as_str(), " B");
    }
    let u = spacing_of(bytes);
    let q = divide_half_even(bytes as u128, u as u128);
    assert(q <= MANTISSA_LIMIT);
    assert(q * u <= 0x20_0000_0000_0000 * 4096) by (nonlinear_arith)
        requires
            q <= 0x20_0000_0000_0000,
            0 < u <= 4096,
    ;
    let f: u128 = q * (u as u128);
    assert(f == rounded_count(bytes as nat));
    let (k, den, name): (u8, u128, &str) = if f < 0x10_0000 {
        (1, 0x400, "KB")
    } else if f < 0x4000_0000 {
        (2, 0x10_0000, "MB")
    } else if f < 0x100_0000_0000 {
        (3, 0x4000_0000, "GB")
    } else {
        (4, 0x100_0000_0000, "TB")
    };
    assert(k == unit_index(f as nat) && den == unit_size(k as nat) && name@ == unit_name(k as nat));
    let h = divide_half_even(f * 100, den);
    let mut s = decimal(h / 100);
    push_char(&mut s, '.');
    push_char(&mut s, digit((h % 100 / 10) as u8));
    push_char(&mut s, digit((h % 10) as u8));
    assert(s@ =~= two_decimals(h as nat));
    s.append(" ");
    s.append(name);
    s
}

} // verus!
