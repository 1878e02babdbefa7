use vstd::prelude::*;

use vstd::arithmetic::power2::{
    lemma_pow2_adds, lemma_pow2_pos, lemma_pow2_strictly_increases, lemma_pow2_unfold, lemma2_to64,
    pow2,
};

verus! {

// Single precision arithmetic on whole numbers, computed exactly in integers: the radio
// is told its frequencies as single precision quotients, and this module states and
// computes what such a quotient comes to.

/// The position of the highest set bit of `n` (0 for 0 and 1).
pub open spec fn top_bit(n: nat) -> nat
    decreases n,
{
    if n < 2 {
        0
    } else {
        1 + top_bit(n / 2)
    }
}

/// `a / b` rounded to the nearest whole number, a tie going to the even one.
pub open spec fn half_even(a: nat, b: nat) -> nat
    recommends
        b > 0,
{
    let q = a / b;
    let r = a % b;
    if 2 * r > b || (2 * r == b && q % 2 == 1) {
        q + 1
    } else {
        q
    }
}

/// The magnitude of a whole number once held in single precision: below 2^24 the number
/// itself, above that the nearest multiple of 2^(top bit - 23), a tie going to the even
/// multiple.
pub open spec fn single_nat(m: nat) -> nat {
    if m < 0x1000000 {
        m
    } else {
        let p = pow2((top_bit(m) - 23) as nat);
        half_even(m, p) * p
    }
}

/// The whole number `n` once held in single precision: its magnitude rounded to 24
/// significant bits, ties to even, its sign kept.
pub open spec fn single(n: int) -> int {
    if n >= 0 {
        single_nat(n as nat) as int
    } else {
        -(single_nat((-n) as nat) as int)
    }
}

/// The whole part of the quotient `n / d` (with `n >= d >= 1`) once the quotient is
/// rounded to 24 significant bits, ties to even, as a single precision division rounds
/// it.
pub open spec fn single_quotient(n: nat, d: nat) -> nat
    recommends
        d >= 1,
        n >= d,
{
    let e = top_bit(n / d);
    if e >= 23 {
        let p = pow2((e - 23) as nat);
        half_even(n, d * p) * p
    } else {
        let p = pow2((23 - e) as nat);
        half_even(n * p, d) / p
    }
}

/// 2^top_bit(n) is the largest power of two at or below `n`.
pub proof fn lemma_top_bit(n: nat)
    requires
        n >= 1,
    ensures
        pow2(top_bit(n)) <= n < pow2(top_bit(n) + 1),
    decreases n,
{
    lemma2_to64();
    if n >= 2 {
        let t = top_bit(n / 2);
        lemma_top_bit(n / 2);
        lemma_pow2_unfold(t + 1);
        lemma_pow2_unfold(t + 2);
        assert(top_bit(n) == t + 1);
    }
}

/// The highest set bit of a 64 bit number lies below 64.
proof fn lemma_top_bit_u64(n: nat)
    requires
        1 <= n < 0x10000000000000000,
    ensures
        top_bit(n) < 64,
{
    lemma_top_bit(n);
    lemma2_to64();
    if top_bit(n) > 64 {
        lemma_pow2_strictly_increases(64, top_bit(n));
    }
}

/// The position of the highest set bit of `n`.
pub fn top_bit_of(n: u64) -> (b: u32)
    ensures
        b == top_bit(n as nat),
        n >= 1 ==> b < 64,
{
    let mut m = n;
    let mut b: u32 = 0;
    proof {
        if n >= 1 {
            lemma_top_bit_u64(n as nat);
        }
    }
    while m >= 2
        invariant
            b + top_bit(m as nat) == top_bit(n as nat),
            n >= 1 ==> top_bit(n as nat) < 64,
            m <= n,
            n >= 1 ==> m >= 1,
            n == 0 ==> m == 0,
        decreases m,
    {
        assert(top_bit(m as nat) == 1 + top_bit((m / 2) as nat));
        m = m / 2;
        b = b + 1;
    }
    b
}

/// 2^e, for `e` up to 64.
pub fn pow2_of(e: u32) -> (p: u128)
    requires
        e <= 64,
    ensures
        p == pow2(e as nat),
{
    let mut p: u128 = 1;
    let mut i: u32 = 0;
    proof {
        lemma2_to64();
    }
    while i < e
        invariant
            i <= e <= 64,
            p == pow2(i as nat),
            pow2(64) == 0x10000000000000000,
        decreases e - i,
    {
        proof {
            if i < 64 {
                lemma_pow2_strictly_increases(i as nat, 64);
            }
            lemma_pow2_unfold((i + 1) as nat);
        }
        p = p * 2;
        i = i + 1;
    }
    p
}

/// `a / b` rounded to the nearest whole number, ties to the even one.
pub fn half_even_of(a: u128, b: u128) -> (k: u128)
    requires
        b > 0,
        b < 0x80000000000000000000000000000000,
        a < 0x80000000000000000000000000000000,
    ensures
        k == half_even(a as nat, b as nat),
        k <= a / b + 1,
{
    let q = a / b;
    let r = a % b;
    if 2 * r > b || (2 * r == b && q % 2 == 1) {
        q + 1
    } else {
        q
    }
}

/// The whole number `n`, of magnitude up to 2^40, once held in single precision; its
/// magnitude at most doubles.
pub fn single_of(n: i64) -> (s: i64)
    requires
        -0x10000000000 <= n <= 0x10000000000,
    ensures
        s == single(n as int),
        -2 * (if n >= 0 { n as int } else { -n }) <= s <= 2 * (if n >= 0 { n as int } else { -n }),
{
    let m: u64 = if n >= 0 { n as u64 } else { (-n) as u64 };
    let r: u64 = if m < 0x1000000 {
        m
    } else {
        let e = top_bit_of(m);
        proof {
            lemma_top_bit(m as nat);
            lemma2_to64();
            if e < 24 {
                if e < 23 {
                    lemma_pow2_strictly_increases((e + 1) as nat, 24);
                }
                assert(false);
            }
            lemma_pow2_adds((e - 23) as nat, 23);
            assert(pow2(((e - 23) as nat) + 23) == pow2(e as nat));
        }
        let p = pow2_of(e - 23);
        proof {
            lemma_pow2_pos((e - 23) as nat);
        }
        let k = half_even_of(m as u128, p);
        proof {
            let q = (m as int) / (p as int);
            vstd::arithmetic::div_mod::lemma_fundamental_div_mod(m as int, p as int);
            assert(k * p <= q * p + p) by (nonlinear_arith)
                requires
                    k <= q + 1,
                    p > 0,
            ;
            assert(p * q <= m) by (nonlinear_arith)
                requires
                    m == p * q + (m as int) % (p as int),
                    0 <= (m as int) % (p as int),
            ;
            assert(pow2(e as nat) == pow2((e - 23) as nat) * 0x800000);
        }
        (k * p) as u64
    };
    if n >= 0 {
        r as i64
    } else {
        -(r as i64)
    }
}

/// The whole part of `n / d` (for `n >= d`, with `d` up to 2^32) rounded to 24
/// significant bits, ties to even.
pub fn single_quotient_of(n: u64, d: u64) -> (w: u128)
    requires
        1 <= d <= 0x100000000,
        d <= n,
    ensures
        w == single_quotient(n as nat, d as nat),
{
    let q = n / d;
    assert(q >= 1) by (nonlinear_arith)
        requires
            1 <= d <= n,
            q == n / d,
    ;
    let e = top_bit_of(q);
    if e >= 23 {
        let p = pow2_of(e - 23);
        proof {
            lemma_pow2_pos((e - 23) as nat);
            if e - 23 < 41 {
                lemma_pow2_strictly_increases((e - 23) as nat, 41);
            }
            lemma_pow2_unfold(41);
            lemma_pow2_unfold(40);
            lemma_pow2_unfold(39);
            lemma_pow2_unfold(38);
            lemma_pow2_unfold(37);
            lemma_pow2_unfold(36);
            lemma_pow2_unfold(35);
            lemma_pow2_unfold(34);
            lemma_pow2_unfold(33);
            lemma2_to64();
        }
        assert(1 <= (d as u128) * p < 0x1000000000000000000000000) by (nonlinear_arith)
            requires
                1 <= d <= 0x100000000,
                1 <= p < 0x20000000000,
        ;
        let dp = (d as u128) * p;
        assert((n as int) / (dp as int) <= n) by (nonlinear_arith)
            requires
                dp >= 1,
                n >= 0,
        ;
        let k = half_even_of(n as u128, dp);
        assert(k * p < 0x80000000000000000000000000000000) by (nonlinear_arith)
            requires
                k <= n + 1,
                n < 0x10000000000000000,
                p < 0x20000000000,
        ;
        k * p
    } else {
        let p = pow2_of(23 - e);
        proof {
            lemma_pow2_pos((23 - e) as nat);
            if 23 - e < 24 {
                lemma_pow2_strictly_increases((23 - e) as nat, 24);
            }
            lemma2_to64();
        }
        assert((n as u128) * p < 0x80000000000000000000000000000000) by (nonlinear_arith)
            requires
                n < 0x10000000000000000,
                p < 0x1000000,
        ;
        let np = (n as u128) * p;
        let k = half_even_of(np, d as u128);
        k / p
    }
}

} // verus!
