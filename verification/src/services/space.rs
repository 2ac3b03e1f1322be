//! The free-space rule of a node. The rule compares, in double precision,
//! `1 - (total - free) / total` with a minimum share of free space of `0.1`.
//! This module decides the same comparison exactly, in integers: it rounds
//! each conversion of an integer to a double as the conversion does, and
//! finds the quotient above which the double result falls under `0.1`.
use vstd::prelude::*;

verus! {

/// `2^e`.
pub open spec fn pow2(e: nat) -> nat
    decreases e,
{
    if e == 0 {
        1
    } else {
        2 * pow2((e - 1) as nat)
    }
}

/// How many low bits of `n` a double cannot hold: doubles carry 53
/// significant bits.
pub open spec fn f64_shift(n: nat) -> nat
    decreases n,
{
    if n < 0x20_0000_0000_0000 {
        0
    } else {
        1 + f64_shift(n / 2)
    }
}

/// The value of `n as f64`: `n` rounded to 53 significant bits, to nearest,
/// ties to an even last bit.
pub open spec fn f64_value_of(n: nat) -> nat {
    let p = pow2(f64_shift(n));
    let q = n / p;
    let r = n % p;
    if 2 * r > p || (2 * r == p && q % 2 == 1) {
        (q + 1) * p
    } else {
        q * p
    }
}

/// Whether `(1.0 - (total - free) as f64 / total as f64) < 0.1` holds in
/// double precision. With `x` and `y` the doubles of `total - free` and
/// `total`, the difference `1 - x / y` is exact where `x / y >= 0.5` and at
/// least `0.5` elsewhere; it falls under the double nearest `0.1` exactly
/// where the rounded quotient reaches the double nearest `0.9`, which is
/// `k / 2^53` with `k = 8106479329266893`; the quotient rounds to at least
/// that (ties to even go down, `k` being odd) exactly where
/// `x * 2^54 > (2k - 1) * y`. Where `total` is 0 the quotient is not a number
/// and the comparison is false.
pub open spec fn free_space_is_low(total: nat, free: nat) -> bool {
    f64_value_of((total - free) as nat) * 0x40_0000_0000_0000 > 16212958658533785 * f64_value_of(total)
}

/// The value of `n as f64`, as an integer.
fn f64_value(n: u64) -> (r: u128)
    ensures
        r == f64_value_of(n as nat),
        r <= 0x1_0000_0000_0000_1000,
{
    let n128: u128 = n as u128;
    let mut m: u128 = n128;
    let mut p: u128 = 1;
    let ghost mut s: nat = 0;
    while m >= 0x20_0000_0000_0000
        invariant
            n128 == n,
            p == pow2(s),
            1 <= p <= 4096,
            m == n128 / p,
            f64_shift(n as nat) == s + f64_shift(m as nat),
        decreases m,
    {
        proof {
            vstd::arithmetic::div_mod::lemma_fundamental_div_mod(n as int, p as int);
            vstd::arithmetic::div_mod::lemma_mod_pos_bound(n as int, p as int);
            assert(p * m <= n);
            assert(p < 2048) by (nonlinear_arith)
                requires
                    p * m <= n,
                    m >= 0x20_0000_0000_0000,
                    n < 0x1_0000_0000_0000_0000,
            ;
            vstd::arithmetic::div_mod::lemma_div_denominator(n as int, p as int, 2);
        }
        m = m / 2;
        p = p * 2;
        proof {
            s = s + 1;
        }
    }
    let q = m;
    let r = n128 % p;
    proof {
        vstd::arithmetic::div_mod::lemma_fundamental_div_mod(n as int, p as int);
        vstd::arithmetic::div_mod::lemma_mod_pos_bound(n as int, p as int);
        assert(p * q <= n);
        assert(q * p <= n) by (nonlinear_arith)
            requires
                p * q <= n,
        ;
        assert((q + 1) * p <= 0x1_0000_0000_0000_1000) by (nonlinear_arith)
            requires
                q * p <= n,
                n < 0x1_0000_0000_0000_0000,
                p <= 4096,
        ;
    }
    if 2 * r > p || (2 * r == p && q % 2 == 1) {
        (q + 1) * p
    } else {
        q * p
    }
}

/// Whether the free space of a node runs out: the double-precision rule
/// `1 - (total - free) / total < 0.1`, decided exactly. `free` is at most
/// `total`; the subtraction has no value elsewhere.
pub fn free_space_running_out(total: u64, free: u64) -> (r: bool)
    requires
        free <= total,
    ensures
        r == free_space_is_low(total as nat, free as nat),
{
    let x = f64_value(total - free);
    let y = f64_value(total);
    proof {
        assert(x * 0x40_0000_0000_0000 <= 0x1_0000_0000_0000_1000 * 0x40_0000_0000_0000)
            by (nonlinear_arith)
            requires
                x <= 0x1_0000_0000_0000_1000,
        ;
        assert(16212958658533785 * y <= 16212958658533785 * 0x1_0000_0000_0000_1000)
            by (nonlinear_arith)
            requires
                y <= 0x1_0000_0000_0000_1000,
        ;
    }
    x * 0x40_0000_0000_0000 > 16212958658533785 * y
}

} // verus!
