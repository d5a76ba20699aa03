//! Numbers as Rust writes a double with a fixed number of decimals
//! (`{:.N}`): the integer is first rounded to the nearest double, divided by
//! a power of two (which is exact), and rounded to the decimals asked for, a
//! tie to the even last digit.

use vstd::prelude::*;
use crate::text::{decimal, pad2, push_char, push_decimal, push_pad2};

verus! {

/// Two to the power `e`.
pub open spec fn two_pow(e: nat) -> nat
    decreases e,
{
    if e == 0 { 1 } else { 2 * two_pow((e - 1) as nat) }
}

/// How many low bits of `n` do not fit in the 53 bits of a double's
/// significand.
pub open spec fn dropped_bits(n: nat) -> nat
    decreases n,
{
    if n < 0x20_0000_0000_0000 { 0 } else { 1 + dropped_bits(n / 2) }
}

/// The double nearest to `n` (`n as f64`): rounded to a multiple of the
/// last kept bit, a tie to the even multiple.
pub open spec fn nearest_double(n: nat) -> nat {
    let unit = two_pow(dropped_bits(n));
    let lo = n / unit * unit;
    let rem = n % unit;
    if rem * 2 < unit {
        lo
    } else if rem * 2 > unit {
        lo + unit
    } else if (n / unit) % 2 == 0 {
        lo
    } else {
        lo + unit
    }
}

proof fn lemma_two_pow_pos(e: nat)
    ensures
        two_pow(e) >= 1,
    decreases e,
{
    if e > 0 {
        lemma_two_pow_pos((e - 1) as nat);
    }
}

proof fn lemma_two_pow_mono(a: nat, b: nat)
    requires
        a <= b,
    ensures
        two_pow(a) <= two_pow(b),
    decreases b,
{
    if a < b {
        lemma_two_pow_mono(a, (b - 1) as nat);
        lemma_two_pow_pos((b - 1) as nat);
    }
}

/// Ten to the power `d`.
pub open spec fn pow10(d: nat) -> nat
    decreases d,
{
    if d == 0 { 1 } else { 10 * pow10((d - 1) as nat) }
}

/// `n` as a double, divided by two to the power `shift`, in units of the
/// `d`th decimal, rounded to the nearest unit, a tie to the even unit.
pub open spec fn scaled_rounded(n: nat, shift: nat, d: nat) -> nat {
    let t = pow10(d) * nearest_double(n);
    let u = two_pow(shift);
    let q = t / u;
    let rem = t % u;
    if rem * 2 < u {
        q
    } else if rem * 2 > u {
        q + 1
    } else if q % 2 == 0 {
        q
    } else {
        q + 1
    }
}

/// The text `{:.d}` gives for `n` as a double divided by two to the power
/// `shift` (with `d` at most 2).
pub open spec fn fixed_text(n: nat, shift: nat, d: nat) -> Seq<char> {
    let q = scaled_rounded(n, shift, d);
    if d == 0 {
        decimal(q)
    } else if d == 1 {
        decimal(q / 10) + "."@ + decimal(q % 10)
    } else {
        decimal(q / 100) + "."@ + pad2(q % 100)
    }
}

/// The double nearest to `n`, as an integer.
fn nearest_double_exec(n: u64) -> (r: u128)
    ensures
        r as nat == nearest_double(n as nat),
        r <= 2 * (u64::MAX as u128),
{
    let mut m: u64 = n;
    let mut unit: u64 = 1;
    let ghost mut d: nat = 0;
    while m >= 0x20_0000_0000_0000
        invariant
            unit as nat == two_pow(d),
            unit >= 1,
            m as nat == n as nat / (unit as nat),
            dropped_bits(n as nat) == d + dropped_bits(m as nat),
            unit == 1 || unit <= n,
        decreases m,
    {
        proof {
            vstd::arithmetic::div_mod::lemma_div_denominator(n as int, unit as int, 2);
            vstd::arithmetic::div_mod::lemma_fundamental_div_mod(n as int, unit as int);
            assert(n as int >= unit as int * (m as int)) by {
                assert(n as int == unit as int * (n as int / unit as int) + n as int % unit as int);
            }
            assert(unit as int * (m as int) >= unit as int * 2) by (nonlinear_arith)
                requires m >= 2, unit >= 1;
        }
        m = m / 2;
        unit = unit * 2;
        proof {
            d = d + 1;
            assert(two_pow(d) == 2 * two_pow((d - 1) as nat));
        }
    }
    assert(dropped_bits(m as nat) == 0);
    proof {
        vstd::arithmetic::div_mod::lemma_fundamental_div_mod(n as int, unit as int);
        assert(n as int == unit as int * (n as int / unit as int) + n as int % unit as int);
        assert(0 <= (n as int) % (unit as int) && (n as int) % (unit as int) < (unit as int));
        assert((n as int / unit as int) * unit as int <= n as int) by (nonlinear_arith)
            requires n as int == unit as int * (n as int / unit as int) + n as int % unit as int,
                0 <= n as int % unit as int;
    }
    let lo: u64 = n / unit * unit;
    let rem: u64 = n % unit;
    if rem < unit - rem {
        lo as u128
    } else if rem > unit - rem {
        lo as u128 + unit as u128
    } else if (n / unit) % 2 == 0 {
        lo as u128
    } else {
        lo as u128 + unit as u128
    }
}

/// Two to the power `shift`.
fn power_of_two(shift: u32) -> (u: u128)
    requires
        10 <= shift <= 30,
    ensures
        u as nat == two_pow(shift as nat),
        0x400 <= u <= 0x4000_0000,
{
    let mut u: u128 = 1;
    let mut k: u32 = 0;
    proof {
        reveal_with_fuel(two_pow, 31);
    }
    assert(two_pow(30) == 0x4000_0000nat);
    while k < shift
        invariant
            k <= shift <= 30,
            u as nat == two_pow(k as nat),
            u as nat * two_pow((30 - k) as nat) == 0x4000_0000nat,
        decreases shift - k,
    {
        proof {
            lemma_two_pow_pos((29 - k) as nat);
            assert(two_pow((30 - k) as nat) == 2 * two_pow((29 - k) as nat));
            assert(u as nat * two_pow((30 - k) as nat) == (2 * u as nat) * two_pow((29 - k) as nat)) by (nonlinear_arith)
                requires two_pow((30 - k) as nat) == 2 * two_pow((29 - k) as nat);
            assert(u as nat <= 0x4000_0000nat) by (nonlinear_arith)
                requires u as nat * two_pow((30 - k) as nat) == 0x4000_0000nat, two_pow((30 - k) as nat) >= 1;
        }
        u = u * 2;
        k = k + 1;
    }
    proof {
        lemma_two_pow_pos((30 - shift) as nat);
        assert(u as nat <= 0x4000_0000nat) by (nonlinear_arith)
            requires u as nat * two_pow((30 - shift) as nat) == 0x4000_0000nat, two_pow((30 - shift) as nat) >= 1;
        reveal_with_fuel(two_pow, 11);
        lemma_two_pow_mono(10, shift as nat);
    }
    u
}

/// `n` as a double, divided by two to the power `shift`, in units of the
/// `d`th decimal, rounded.
fn scaled_rounded_exec(n: u64, shift: u32, d: u32) -> (q: u128)
    requires
        10 <= shift <= 30,
        d <= 2,
    ensures
        q as nat == scaled_rounded(n as nat, shift as nat, d as nat),
        q <= 0x4000_0000_0000_0000u128,
{
    let f: u128 = nearest_double_exec(n);
    let scale: u128 = if d == 0 { 1 } else if d == 1 { 10 } else { 100 };
    proof {
        reveal_with_fuel(pow10, 3);
    }
    assert(scale as nat == pow10(d as nat));
    let u = power_of_two(shift);
    let t: u128 = scale * f;
    let q0: u128 = t / u;
    let rem: u128 = t % u;
    assert(t <= 200 * 0xFFFF_FFFF_FFFF_FFFFu128);
    assert(q0 < 0x4000_0000_0000_0000u128) by (nonlinear_arith)
        requires q0 == t / u, u >= 0x400, t <= 200 * 0xFFFF_FFFF_FFFF_FFFFu128;
    if rem * 2 < u {
        q0
    } else if rem * 2 > u {
        q0 + 1
    } else if q0 % 2 == 0 {
        q0
    } else {
        q0 + 1
    }
}

/// The text `{:.d}` gives for `n as f64` divided by two to the power
/// `shift`.
pub fn fixed_text_exec(n: u64, shift: u32, d: u32) -> (r: String)
    requires
        10 <= shift <= 30,
        d <= 2,
    ensures
        r@ == fixed_text(n as nat, shift as nat, d as nat),
{
    let q = scaled_rounded_exec(n, shift, d);
    let mut r = String::new();
    if d == 0 {
        push_decimal(&mut r, q as u64);
    } else if d == 1 {
        push_decimal(&mut r, (q / 10) as u64);
        push_char(&mut r, '.');
        push_decimal(&mut r, (q % 10) as u64);
    } else {
        push_decimal(&mut r, (q / 100) as u64);
        push_char(&mut r, '.');
        push_pad2(&mut r, (q % 100) as u64);
    }
    proof {
        reveal_strlit(".");
        assert(r@ =~= fixed_text(n as nat, shift as nat, d as nat));
    }
    r
}

} // verus!
