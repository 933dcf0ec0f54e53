//! Exact arithmetic on nano-scaled scalars.
//!
//! Every scalar the engine handles is a signed count of nanos (billionths of a
//! unit).  This module provides the integer primitives the engine's contracts
//! are stated over: powers of ten, the floor square root, division that
//! truncates toward zero, and the decimal order of magnitude of a value.

use vstd::prelude::*;

verus! {

/// `10^e` as a mathematical integer.
pub open spec fn pow10(e: nat) -> int
    decreases e,
{
    if e == 0 {
        1
    } else {
        10 * pow10((e - 1) as nat)
    }
}

pub proof fn lemma_pow10_pos(e: nat)
    ensures
        pow10(e) >= 1,
    decreases e,
{
    if e > 0 {
        lemma_pow10_pos((e - 1) as nat);
    }
}

pub proof fn lemma_pow10_mono(a: nat, b: nat)
    requires
        a <= b,
    ensures
        pow10(a) <= pow10(b),
    decreases b,
{
    if a < b {
        lemma_pow10_mono(a, (b - 1) as nat);
        lemma_pow10_pos((b - 1) as nat);
    }
}

/// `10^38` written out, so that executable powers of ten can be bounded.
pub proof fn lemma_pow10_38()
    ensures
        pow10(38) == 100_000_000_000_000_000_000_000_000_000_000_000_000int,
{
    reveal_with_fuel(pow10, 40);
}

/// `10^e`, exactly, for every exponent whose value fits in a `u128`.
pub fn pow10_u128(e: u32) -> (r: u128)
    requires
        e <= 38,
    ensures
        r == pow10(e as nat),
{
    proof {
        lemma_pow10_38();
    }
    let mut r: u128 = 1;
    let mut i: u32 = 0;
    while i < e
        invariant
            i <= e,
            e <= 38,
            r == pow10(i as nat),
        decreases e - i,
    {
        proof {
            lemma_pow10_38();
            lemma_pow10_mono((i + 1) as nat, 38);
            lemma_pow10_pos(i as nat);
        }
        r = r * 10;
        i = i + 1;
    }
    r
}

/// Floor square root: the unique `r` with `r^2 <= x < (r + 1)^2`.
pub fn isqrt_u128(x: u128) -> (r: u128)
    ensures
        r * r <= x,
        (r + 1) * (r + 1) > x,
{
    let mut lo: u128 = 0;
    let mut hi: u128 = if x < 0xFFFF_FFFF_FFFF_FFFF {
        x
    } else {
        0xFFFF_FFFF_FFFF_FFFF
    };
    proof {
        assert((hi + 1) * (hi + 1) > x) by (nonlinear_arith)
            requires
                hi == if x < 0xFFFF_FFFF_FFFF_FFFFu128 {
                    x as int
                } else {
                    0xFFFF_FFFF_FFFF_FFFFint
                },
                x <= 0xFFFF_FFFF_FFFF_FFFF_FFFF_FFFF_FFFF_FFFFu128,
        ;
    }
    while lo < hi
        invariant
            lo <= hi,
            hi <= 0xFFFF_FFFF_FFFF_FFFF,
            lo * lo <= x,
            (hi + 1) * (hi + 1) > x,
        decreases hi - lo,
    {
        let mid: u128 = lo + (hi - lo + 1) / 2;
        proof {
            assert(mid * mid <= 0xFFFF_FFFF_FFFF_FFFFu128 * 0xFFFF_FFFF_FFFF_FFFFu128)
                by (nonlinear_arith)
                requires
                    mid <= 0xFFFF_FFFF_FFFF_FFFFu128,
            ;
        }
        if mid * mid <= x {
            lo = mid;
        } else {
            hi = mid - 1;
        }
    }
    lo
}

/// Whether `r` is the floor square root of `x`.
pub open spec fn is_floor_sqrt(x: int, r: int) -> bool {
    r >= 0 && r * r <= x < (r + 1) * (r + 1)
}

/// The floor square root of `x`, as a function; meaningful for `x >= 0`,
/// where `lemma_floor_sqrt` shows it satisfies `is_floor_sqrt`.
pub open spec fn floor_sqrt(x: int) -> int {
    choose|r: int| is_floor_sqrt(x, r)
}

/// Every non-negative integer has a floor square root, and `floor_sqrt`
/// denotes it.
pub proof fn lemma_floor_sqrt(x: int)
    requires
        x >= 0,
    ensures
        is_floor_sqrt(x, floor_sqrt(x)),
    decreases x,
{
    if x == 0 {
        assert(is_floor_sqrt(0, 0)) by (nonlinear_arith);
        assert(exists|r: int| is_floor_sqrt(x, r));
    } else {
        lemma_floor_sqrt(x - 1);
        let r = floor_sqrt(x - 1);
        if (r + 1) * (r + 1) <= x {
            assert(is_floor_sqrt(x, r + 1)) by (nonlinear_arith)
                requires
                    r >= 0,
                    (r + 1) * (r + 1) <= x,
                    (r + 1) * (r + 1) > x - 1,
            ;
            assert(exists|r2: int| is_floor_sqrt(x, r2));
        } else {
            assert(is_floor_sqrt(x, r));
            assert(exists|r2: int| is_floor_sqrt(x, r2));
        }
    }
}

/// The floor square root is unique: nothing but `isqrt` satisfies its bounds.
pub proof fn lemma_isqrt_unique(x: int, r1: int, r2: int)
    requires
        r1 >= 0,
        r2 >= 0,
        r1 * r1 <= x < (r1 + 1) * (r1 + 1),
        r2 * r2 <= x < (r2 + 1) * (r2 + 1),
    ensures
        r1 == r2,
{
    if r1 < r2 {
        assert((r1 + 1) * (r1 + 1) <= r2 * r2) by (nonlinear_arith)
            requires
                0 <= r1 < r2,
        ;
    }
    if r2 < r1 {
        assert((r2 + 1) * (r2 + 1) <= r1 * r1) by (nonlinear_arith)
            requires
                0 <= r2 < r1,
        ;
    }
}

/// Division truncating toward zero, as the decay loop and the alignment
/// transform use it; for a non-negative numerator it is plain floor division.
pub open spec fn tdiv(x: int, d: int) -> int {
    if x >= 0 {
        x / d
    } else {
        -((-x) / d)
    }
}

/// Truncating division of a signed value by a small positive divisor.
pub fn tdiv_i128(x: i128, d: i128) -> (q: i128)
    requires
        0 < d <= 0xFFFF_FFFF_FFFF_FFFF,
        x > i128::MIN,
    ensures
        q == tdiv(x as int, d as int),
{
    if x >= 0 {
        let q: u128 = (x as u128) / (d as u128);
        q as i128
    } else {
        let m: u128 = (-x) as u128;
        let q: u128 = m / (d as u128);
        proof {
            assert(q <= m) by (nonlinear_arith)
                requires
                    q == m as int / d as int,
                    m >= 0,
                    d >= 1,
            ;
        }
        -(q as i128)
    }
}

/// `tdiv` differs from the numerator by less than one divisor in either
/// direction; these bounds are what the engine's proofs lean on.
pub proof fn lemma_tdiv_bounds(x: int, d: int)
    requires
        d > 0,
    ensures
        x >= 0 ==> d * tdiv(x, d) <= x < d * tdiv(x, d) + d,
        x < 0 ==> x <= d * tdiv(x, d) < x + d,
{
    if x >= 0 {
        assert(d * (x / d) + x % d == x) by {
            vstd::arithmetic::div_mod::lemma_fundamental_div_mod(x, d);
        }
    } else {
        let m = -x;
        assert(d * (m / d) + m % d == m) by {
            vstd::arithmetic::div_mod::lemma_fundamental_div_mod(m, d);
        }
        assert(d * tdiv(x, d) == -(d * (m / d))) by (nonlinear_arith)
            requires
                tdiv(x, d) == -(m / d),
        ;
    }
}

/// The decimal order of magnitude of a positive integer: the unique `e` with
/// `10^e <= n < 10^(e + 1)`.
pub open spec fn order_of(n: int, e: nat) -> bool {
    pow10(e) <= n < pow10(e + 1)
}

/// The decimal order of magnitude of `n`, as a function; meaningful for
/// `n >= 1`, where `lemma_decimal_order` shows it satisfies `order_of`.
pub open spec fn decimal_order(n: int) -> nat {
    choose|e: nat| order_of(n, e)
}

/// Every positive integer has a decimal order of magnitude, and
/// `decimal_order` denotes it.
pub proof fn lemma_decimal_order(n: int)
    requires
        n >= 1,
    ensures
        order_of(n, decimal_order(n)),
    decreases n,
{
    if n < 10 {
        assert(order_of(n, 0)) by {
            reveal_with_fuel(pow10, 3);
        }
        assert(exists|e: nat| order_of(n, e));
    } else {
        let q = n / 10;
        vstd::arithmetic::div_mod::lemma_fundamental_div_mod(n, 10);
        assert(q >= 1);
        assert(q < n);
        lemma_decimal_order(q);
        let e = decimal_order(q);
        assert(pow10(e) <= q < pow10(e + 1));
        assert(pow10(e + 1) <= n) by (nonlinear_arith)
            requires
                pow10(e + 1) == 10 * pow10(e),
                pow10(e) <= q,
                n == 10 * q + n % 10,
                n % 10 >= 0,
        ;
        assert(n < pow10(e + 2)) by (nonlinear_arith)
            requires
                pow10(e + 2) == 10 * pow10(e + 1),
                q < pow10(e + 1),
                n == 10 * q + n % 10,
                n % 10 < 10,
        ;
        assert(order_of(n, e + 1));
        assert(exists|e2: nat| order_of(n, e2));
    }
}

/// Count how many times a positive value can be divided by ten before
/// reaching a single digit; this is its decimal order of magnitude.
pub fn decimal_order_u128(n: u128) -> (e: u32)
    requires
        n >= 1,
    ensures
        order_of(n as int, e as nat),
        e == decimal_order(n as int),
        e <= 38,
{
    let mut m: u128 = n;
    let mut e: u32 = 0;
    proof {
        lemma_pow10_38();
    }
    while m >= 10
        invariant
            m >= 1,
            e <= 38,
            pow10(e as nat) * m <= n,
            n < pow10(e as nat) * (m + 1),
        decreases m,
    {
        let m2: u128 = m / 10;
        proof {
            lemma_pow10_pos(e as nat);
            lemma_pow10_38();
            lemma_pow10_mono(e as nat, 38);
            vstd::arithmetic::div_mod::lemma_fundamental_div_mod(m as int, 10);
            let p = pow10(e as nat);
            let r = m as int % 10;
            assert(m == 10 * m2 + r);
            // p * m == p * (10 * m2 + r) == 10 * p * m2 + p * r
            assert(p * m == pow10((e + 1) as nat) * m2 + p * r) by (nonlinear_arith)
                requires
                    m == 10 * m2 + r,
                    pow10((e + 1) as nat) == 10 * p,
            ;
            assert(p * r >= 0) by (nonlinear_arith)
                requires
                    p >= 1,
                    r >= 0,
            ;
            assert(p * (m + 1) <= pow10((e + 1) as nat) * (m2 + 1)) by (nonlinear_arith)
                requires
                    m + 1 <= 10 * m2 + 10,
                    pow10((e + 1) as nat) == 10 * p,
                    p >= 1,
            ;
            assert(e < 38) by {
                if e >= 38 {
                    assert(pow10(e as nat) * m >= pow10(38) * 10) by (nonlinear_arith)
                        requires
                            pow10(e as nat) >= pow10(38),
                            m >= 10,
                            pow10(38) >= 1,
                    ;
                }
            }
        }
        m = m2;
        e = e + 1;
    }
    proof {
        lemma_pow10_pos(e as nat);
        assert(pow10(e as nat) * 1 <= pow10(e as nat) * m) by (nonlinear_arith)
            requires
                m >= 1,
                pow10(e as nat) >= 1,
        ;
        assert(n < pow10(e as nat) * (m + 1));
        assert(pow10(e as nat) * (m + 1) <= pow10(e as nat) * 10) by (nonlinear_arith)
            requires
                m + 1 <= 10,
                pow10(e as nat) >= 1,
        ;
        lemma_decimal_order(n as int);
        lemma_order_unique(n as int, e as nat, decimal_order(n as int));
    }
    e
}

/// The decimal order of magnitude is unique.
pub proof fn lemma_order_unique(n: int, e1: nat, e2: nat)
    requires
        order_of(n, e1),
        order_of(n, e2),
    ensures
        e1 == e2,
{
    if e1 < e2 {
        lemma_pow10_mono(e1 + 1, e2);
    }
    if e2 < e1 {
        lemma_pow10_mono(e2 + 1, e1);
    }
}

} // verus!
