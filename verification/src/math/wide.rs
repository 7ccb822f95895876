//! Products of two 128-bit words and their quotients by a third.

use vstd::arithmetic::div_mod::{
    lemma_div_is_ordered, lemma_div_multiples_vanish, lemma_div_pos_is_pos,
    lemma_fundamental_div_mod, lemma_fundamental_div_mod_converse, lemma_mod_bound,
    lemma_multiply_divide_lt,
};
use vstd::arithmetic::power2::{lemma2_to64, lemma_pow2_adds, lemma_pow2_unfold, pow2};
use vstd::prelude::*;

verus! {

/// 2^64 as a machine word.
pub const B64: u128 = 0x1_0000_0000_0000_0000;

/// 2^128.
pub open spec fn pow128() -> int {
    0x1_0000_0000_0000_0000_0000_0000_0000_0000int
}

/// The product of two 64-bit limbs fits in 128 bits.
proof fn lemma_limb_product(x: u128, y: u128)
    requires
        x < 0x1_0000_0000_0000_0000,
        y < 0x1_0000_0000_0000_0000,
    ensures
        x * y <= 0xFFFF_FFFF_FFFF_FFFE_0000_0000_0000_0001,
{
    assert(x * y <= 0xFFFF_FFFF_FFFF_FFFF * 0xFFFF_FFFF_FFFF_FFFF) by (nonlinear_arith)
        requires
            0 <= x <= 0xFFFF_FFFF_FFFF_FFFF,
            0 <= y <= 0xFFFF_FFFF_FFFF_FFFF,
    ;
}

/// The full 256-bit product of `a` and `b`, as its high and low words.
pub fn mul_wide(a: u128, b: u128) -> (r: (u128, u128))
    ensures
        r.0 * pow128() + r.1 == a * b,
{
    let a0: u128 = a % B64;
    let a1: u128 = a / B64;
    let b0: u128 = b % B64;
    let b1: u128 = b / B64;
    proof {
        lemma_limb_product(a0, b0);
        lemma_limb_product(a0, b1);
        lemma_limb_product(a1, b0);
        lemma_limb_product(a1, b1);
    }
    let ll: u128 = a0 * b0;
    let lh: u128 = a0 * b1;
    let hl: u128 = a1 * b0;
    let hh: u128 = a1 * b1;
    let s: u128 = ll / B64 + lh % B64 + hl % B64;
    let lo: u128 = (s % B64) * B64 + ll % B64;
    proof {
        let w: int = 0x1_0000_0000_0000_0000int;
        let h: int = hh + lh / B64 + hl / B64 + s / B64;
        assert(a * b == hh * (w * w) + (lh + hl) * w + ll) by (nonlinear_arith)
            requires
                a == a1 * w + a0,
                b == b1 * w + b0,
                ll == a0 * b0,
                lh == a0 * b1,
                hl == a1 * b0,
                hh == a1 * b1,
        ;
        assert(w * w == pow128());
        assert(hh * (w * w) == hh * pow128());
        assert(h * pow128() + lo == a * b);
        assert(a * b < pow128() * pow128()) by (nonlinear_arith)
            requires
                0 <= a < pow128(),
                0 <= b < pow128(),
        ;
        assert(h < pow128()) by (nonlinear_arith)
            requires
                h * pow128() <= a * b,
                a * b < pow128() * pow128(),
        ;
    }
    let hi: u128 = hh + lh / B64 + hl / B64 + s / B64;
    (hi, lo)
}

/// `pow2(128)` and `pow2(127)` as numerals.
proof fn lemma_pow2_128()
    ensures
        pow2(128) == pow128(),
        pow2(127) == 0x8000_0000_0000_0000_0000_0000_0000_0000,
        pow2(0) == 1,
{
    lemma2_to64();
    lemma_pow2_adds(64, 64);
    lemma_pow2_unfold(128);
}

/// One step of binary long division: shifting the next dividend bit into the
/// running remainder keeps `dividend == (q * d + r) * weight + rest`.
proof fn lemma_long_division_step(
    q: int,
    r: int,
    d: int,
    w: int,
    m: int,
    rest: int,
    bit: int,
    e: int,
    q2: int,
    r2: int,
    rest2: int,
)
    requires
        w == 2 * m,
        rest == bit * m + rest2,
        q2 == 2 * q + e,
        r2 == 2 * r + bit - e * d,
    ensures
        (q * d + r) * w + rest == (q2 * d + r2) * m + rest2,
{
    assert((q * d + r) * w + rest == (q2 * d + r2) * m + rest2) by (nonlinear_arith)
        requires
            w == 2 * m,
            rest == bit * m + rest2,
            q2 == 2 * q + e,
            r2 == 2 * r + bit - e * d,
    ;
}

/// Quotient and remainder of the 256-bit number `hi * 2^128 + lo` by `d`.
/// The quotient fits in one word because `hi < d`.
pub fn div_wide(hi: u128, lo: u128, d: u128) -> (r: (u128, u128))
    requires
        hi < d,
    ensures
        r.0 * d + r.1 == hi * pow128() + lo,
        r.1 < d,
        r.0 == (hi * pow128() + lo) / (d as int),
        r.1 == (hi * pow128() + lo) % (d as int),
{
    let mut q: u128 = 0;
    let mut rem: u128 = hi;
    let mut rest: u128 = lo;
    let mut m: u128 = 0x8000_0000_0000_0000_0000_0000_0000_0000;
    let mut k: u32 = 128;
    proof {
        lemma_pow2_128();
        assert((0 * d + hi) * pow128() + lo == hi * pow128() + lo);
    }
    while k > 0
        invariant
            k <= 128,
            k > 0 ==> m == pow2((k - 1) as nat),
            rest < pow2(k as nat),
            hi * pow128() + lo == (q * d + rem) * pow2(k as nat) + rest,
            rem < d,
            q < pow2((128 - k) as nat),
        decreases k,
    {
        let ghost q0: int = q as int;
        let ghost r0: int = rem as int;
        let ghost rest0: int = rest as int;
        let ghost w: int = pow2(k as nat) as int;
        let ghost mm: int = m as int;
        proof {
            lemma_pow2_unfold(k as nat);
            lemma_pow2_unfold((128 - k + 1) as nat);
            lemma_pow2_128();
            if k > 1 {
                lemma_pow2_unfold((k - 1) as nat);
            }
        }
        let bit: u128 = if rest >= m {
            1
        } else {
            0
        };
        if rest >= m {
            rest = rest - m;
        }
        let gap: u128 = d - rem;
        let ghost e: int;
        if rem + bit >= gap {
            rem = rem + bit - gap;
            proof {
                e = 1;
                assert(2 * q0 + 1 < pow2((128 - k + 1) as nat));
                if k == 1 {
                    assert(pow2((128 - k + 1) as nat) == pow128());
                } else {
                    vstd::arithmetic::power2::lemma_pow2_strictly_increases(
                        (128 - k + 1) as nat,
                        128,
                    );
                }
            }
            q = 2 * q + 1;
        } else {
            rem = rem + rem + bit;
            proof {
                e = 0;
                if k == 1 {
                    assert(pow2((128 - k + 1) as nat) == pow128());
                } else {
                    vstd::arithmetic::power2::lemma_pow2_strictly_increases(
                        (128 - k + 1) as nat,
                        128,
                    );
                }
            }
            q = 2 * q;
        }
        proof {
            lemma_long_division_step(
                q0,
                r0,
                d as int,
                w,
                mm,
                rest0,
                bit as int,
                e,
                q as int,
                rem as int,
                rest as int,
            );
        }
        m = m / 2;
        k = k - 1;
    }
    proof {
        lemma_pow2_128();
        assert(k == 0);
        let t: int = q * d + rem;
        let one: int = pow2(0) as int;
        assert(t * one == t) by (nonlinear_arith)
            requires
                one == 1,
        ;
        assert(q * d + rem == hi * pow128() + lo);
        assert(q * d == d * q) by (nonlinear_arith);
        lemma_fundamental_div_mod_converse(hi * pow128() + lo, d as int, q as int, rem as int);
    }
    (q, rem)
}

/// The quotient of `n` by `d`, rounded up, for `n >= 0` and `d > 0`.
pub open spec fn ceil_div(n: int, d: int) -> int {
    (n + d - 1) / d
}

/// Rounding up adds one to the quotient exactly when the division leaves a remainder.
pub proof fn lemma_ceil_div(n: int, d: int)
    requires
        n >= 0,
        d > 0,
    ensures
        ceil_div(n, d) == if n % d == 0 {
            n / d
        } else {
            n / d + 1
        },
        ceil_div(n, d) * d >= n,
        (ceil_div(n, d) - 1) * d < n || n == 0,
        n / d <= ceil_div(n, d),
{
    let q: int = n / d;
    let r: int = n % d;
    vstd::arithmetic::div_mod::lemma_fundamental_div_mod(n, d);
    vstd::arithmetic::div_mod::lemma_mod_bound(n, d);
    assert(d * q == q * d) by (nonlinear_arith);
    if r == 0 {
        lemma_fundamental_div_mod_converse(n + d - 1, d, q, d - 1);
    } else {
        assert((q + 1) * d == q * d + d) by (nonlinear_arith);
        lemma_fundamental_div_mod_converse(n + d - 1, d, q + 1, r - 1);
    }
    assert((q + 1) * d == q * d + d) by (nonlinear_arith);
    assert((q - 1) * d == q * d - d) by (nonlinear_arith);
    if n > 0 && r == 0 {
        assert(q >= 1) by (nonlinear_arith)
            requires
                q * d == n,
                n > 0,
                d > 0,
        ;
    }
}

/// Scaling `a` by a ratio `b / d` of at most one does not enlarge it.
pub proof fn lemma_mul_div_le(a: int, b: int, d: int)
    requires
        0 <= a,
        0 <= b <= d,
        0 < d,
    ensures
        0 <= (a * b) / d <= a,
{
    assert(0 <= a * b <= a * d) by (nonlinear_arith)
        requires
            0 <= a,
            0 <= b <= d,
    ;
    lemma_div_pos_is_pos(a * b, d);
    lemma_div_is_ordered(a * b, a * d, d);
    lemma_div_multiples_vanish(a, d);
    assert(a * d == d * a) by (nonlinear_arith);
}

/// Scaling a positive `a` by a ratio `b / d` below one makes it strictly smaller.
pub proof fn lemma_mul_div_lt(a: int, b: int, d: int)
    requires
        0 < a,
        0 <= b < d,
    ensures
        (a * b) / d < a,
{
    assert(a * b < d * a) by (nonlinear_arith)
        requires
            0 < a,
            0 <= b < d,
    ;
    lemma_multiply_divide_lt(a * b, d, a);
}

/// The defining bounds of a rounded-down quotient, in product form.
pub proof fn lemma_floor_bounds(n: int, d: int)
    requires
        0 < d,
    ensures
        (n / d) * d <= n < (n / d) * d + d,
{
    lemma_fundamental_div_mod(n, d);
    lemma_mod_bound(n, d);
    assert(d * (n / d) == (n / d) * d) by (nonlinear_arith);
}

/// `a * b / d` with its remainder, or `None` when the quotient does not fit
/// in a word.
pub fn mul_div_rem(a: u128, b: u128, d: u128) -> (r: Option<(u128, u128)>)
    requires
        d > 0,
    ensures
        match r {
            Some((q, m)) => q == (a * b) / (d as int) && m == (a * b) % (d as int),
            None => (a * b) / (d as int) > u128::MAX,
        },
{
    let (hi, lo) = mul_wide(a, b);
    if hi >= d {
        proof {
            let n: int = a * b;
            assert(d * pow128() <= n) by (nonlinear_arith)
                requires
                    n == hi * pow128() + lo,
                    hi >= d,
                    lo >= 0,
            ;
            lemma_div_multiples_vanish(pow128(), d as int);
            lemma_div_is_ordered(d * pow128(), n, d as int);
        }
        None
    } else {
        Some(div_wide(hi, lo, d))
    }
}

/// `a * b / d`, rounded down, or `None` when it does not fit in a word.
pub fn mul_div_floor(a: u128, b: u128, d: u128) -> (r: Option<u128>)
    requires
        d > 0,
    ensures
        match r {
            Some(q) => q == (a * b) / (d as int),
            None => (a * b) / (d as int) > u128::MAX,
        },
{
    match mul_div_rem(a, b, d) {
        Some((q, _)) => Some(q),
        None => None,
    }
}

/// `a * b / d`, rounded up, or `None` when it does not fit in a word.
pub fn mul_div_ceil(a: u128, b: u128, d: u128) -> (r: Option<u128>)
    requires
        d > 0,
    ensures
        match r {
            Some(q) => q == ceil_div(a * b, d as int),
            None => ceil_div(a * b, d as int) > u128::MAX,
        },
{
    proof {
        assert(a * b >= 0) by (nonlinear_arith)
            requires
                a >= 0,
                b >= 0,
        ;
        lemma_ceil_div(a * b, d as int);
    }
    match mul_div_rem(a, b, d) {
        Some((q, m)) => {
            if m == 0 {
                Some(q)
            } else if q == u128::MAX {
                None
            } else {
                Some(q + 1)
            }
        },
        None => None,
    }
}

/// Whether `a * b <= c * d`, decided on the full products.
pub fn mul_le(a: u128, b: u128, c: u128, d: u128) -> (r: bool)
    ensures
        r == (a * b <= c * d),
{
    let (h1, l1) = mul_wide(a, b);
    let (h2, l2) = mul_wide(c, d);
    h1 < h2 || (h1 == h2 && l1 <= l2)
}

} // verus!
