//! Nine tenths of a number of seconds, as double-precision arithmetic gives it.
//!
//! A double has 53 significant bits, and the double nearest to 0.9 is a little more than 0.9. The
//! product of the two is rounded to a double and its fraction dropped. For up to 2^49 seconds that
//! is nine tenths of the number, rounded down.
use vstd::prelude::*;

verus! {

/// The first number that 53 bits do not hold.
pub const TWO_53: u128 = 9_007_199_254_740_992;

/// 2^53 times the double nearest to 0.9.
pub const NINE_TENTHS: u128 = 8_106_479_329_266_893;

/// The distance between neighbouring doubles around `n`, or 1 where every whole number is a double.
pub open spec fn step(n: nat) -> nat
    decreases n,
{
    if n < TWO_53 {
        1
    } else {
        2 * step(n / 2)
    }
}

/// The double nearest to `n`; of two equally near, the one whose last bit is zero.
pub open spec fn nearest_double(n: nat) -> nat {
    let u = step(n);
    let below = n / u;
    let over = n % u;
    if 2 * over < u || (2 * over == u && below % 2 == 0) {
        below * u
    } else {
        (below + 1) * u
    }
}

/// The product of `n` and 0.9 in double precision, without its fraction.
pub open spec fn nine_tenths_of(n: nat) -> nat {
    nearest_double(nearest_double(n) * NINE_TENTHS as nat) / (TWO_53 as nat)
}

proof fn step_bounds(n: nat)
    ensures
        step(n) >= 1,
        n < step(n) * TWO_53,
        step(n) > 1 ==> step(n) * TWO_53 <= 2 * n,
        step(n) == 1 || step(n) % 2 == 0,
    decreases n,
{
    if n >= TWO_53 {
        step_bounds(n / 2);
        let half = step(n / 2);
        assert(step(n) == 2 * half);
        assert((2 * half) * TWO_53 == 2 * (half * TWO_53)) by (nonlinear_arith);
        if half == 1 {
            assert(half * TWO_53 == TWO_53);
        }
    }
}

/// Rounding moves a number by at most half a step.
proof fn nearest_is_near(n: nat)
    ensures
        2 * n - step(n) <= 2 * nearest_double(n) <= 2 * n + step(n),
{
    step_bounds(n);
    let u = step(n);
    let q = n / u;
    let r = n % u;
    vstd::arithmetic::div_mod::lemma_fundamental_div_mod(n as int, u as int);
    assert(n == u * q + r);
    assert(q * u == u * q) by (nonlinear_arith);
    assert((q + 1) * u == u * q + u) by (nonlinear_arith);
}

/// Rounding enlarges a number by at most one part in 2^53.
proof fn nearest_is_tight(n: nat)
    ensures
        nearest_double(n) * TWO_53 <= n * (TWO_53 + 1),
{
    step_bounds(n);
    nearest_is_near(n);
    if step(n) == 1 {
        assert(nearest_double(n) == n);
        assert(n * TWO_53 <= n * (TWO_53 + 1)) by (nonlinear_arith);
    } else {
        let m = nearest_double(n);
        let u = step(n);
        assert(2 * (m * TWO_53) <= 2 * (n * (TWO_53 + 1))) by (nonlinear_arith)
            requires
                2 * m <= 2 * n + u,
                u * TWO_53 <= 2 * n,
        ;
    }
}

/// Nine tenths of a positive number of seconds are fewer seconds.
pub proof fn nine_tenths_is_less(n: nat)
    requires
        n > 0,
    ensures
        nine_tenths_of(n) < n,
{
    let m = nearest_double(n);
    let p = m * NINE_TENTHS as nat;
    let r = nearest_double(p);
    let f = r / (TWO_53 as nat);
    nearest_is_tight(n);
    nearest_is_tight(p);
    vstd::arithmetic::div_mod::lemma_fundamental_div_mod(r as int, TWO_53 as int);
    assert(f < n) by (nonlinear_arith)
        requires
            n > 0,
            m * TWO_53 <= n * (TWO_53 + 1),
            p == m * NINE_TENTHS,
            r * TWO_53 <= p * (TWO_53 + 1),
            f * TWO_53 <= r,
            TWO_53 == 9_007_199_254_740_992,
            NINE_TENTHS == 8_106_479_329_266_893,
    {
        // f * T^2 <= r * T <= m * N * (T + 1), and m * T <= n * (T + 1).
        assert(f * TWO_53 * TWO_53 <= r * TWO_53) by (nonlinear_arith)
            requires
                f * TWO_53 <= r,
        ;
        assert(f * TWO_53 * TWO_53 <= m * NINE_TENTHS * (TWO_53 + 1));
        assert(m * NINE_TENTHS * (TWO_53 + 1) * TWO_53 == (m * TWO_53) * (NINE_TENTHS * (TWO_53
            + 1))) by (nonlinear_arith);
        assert((m * TWO_53) * (NINE_TENTHS * (TWO_53 + 1)) <= (n * (TWO_53 + 1)) * (NINE_TENTHS * (
        TWO_53 + 1))) by (nonlinear_arith)
            requires
                m * TWO_53 <= n * (TWO_53 + 1),
        ;
    }
}

/// Rounding a number up to a multiple of its step below it does not pass that multiple.
proof fn nearest_keeps_multiples(n: nat, k: nat)
    requires
        k * step(n) <= n,
    ensures
        k * step(n) <= nearest_double(n),
{
    step_bounds(n);
    let u = step(n);
    let q = n / u;
    vstd::arithmetic::div_mod::lemma_fundamental_div_mod(n as int, u as int);
    assert(k <= q) by (nonlinear_arith)
        requires
            k * u <= n,
            n < u * q + u,
            u >= 1,
    ;
    assert(k * u <= q * u) by (nonlinear_arith)
        requires
            k <= q,
            u >= 1,
    ;
    assert(q * u <= (q + 1) * u) by (nonlinear_arith);
}

/// A step is a power of two, so it divides every power of two that is not smaller.
proof fn step_divides(n: nat, e: nat) -> (k: nat)
    requires
        n < TWO_53 * vstd::arithmetic::power2::pow2(e),
    ensures
        k * step(n) == vstd::arithmetic::power2::pow2(e),
    decreases n,
{
    vstd::arithmetic::power2::lemma_pow2_pos(e);
    if n < TWO_53 {
        assert(step(n) == 1);
        vstd::arithmetic::power2::pow2(e)
    } else {
        if e == 0 {
            vstd::arithmetic::power2::lemma2_to64();
        }
        vstd::arithmetic::power2::lemma_pow2_unfold(e);
        let half = vstd::arithmetic::power2::pow2((e - 1) as nat);
        assert(n / 2 < TWO_53 * half) by (nonlinear_arith)
            requires
                n < TWO_53 * (2 * half),
        ;
        let k = step_divides(n / 2, (e - 1) as nat);
        let u = step(n / 2);
        assert(k * (2 * u) == 2 * half) by (nonlinear_arith)
            requires
                k * u == half,
        ;
        k
    }
}

/// Up to 2^49 seconds, nine tenths in double precision are nine tenths rounded down.
pub proof fn nine_tenths_is_exact(n: nat)
    requires
        n <= 562_949_953_421_312,
    ensures
        nine_tenths_of(n) == 9 * n / 10,
{
    let t = TWO_53 as nat;
    let k = 9 * n / 10;
    let p = n * NINE_TENTHS as nat;
    assert(step(n) == 1);
    assert(nearest_double(n) == n);
    // 10 * NINE_TENTHS == 9 * 2^53 + 2
    assert(10 * p == 9 * n * t + 2 * n) by (nonlinear_arith)
        requires
            p == n * NINE_TENTHS,
            t == TWO_53,
            TWO_53 == 9_007_199_254_740_992,
            NINE_TENTHS == 8_106_479_329_266_893,
    ;
    let j = 9 * n - 10 * k;
    assert(0 <= j <= 9);
    assert(9 * n * t == 10 * (k * t) + j * t) by (nonlinear_arith)
        requires
            9 * n == 10 * k + j,
    ;
    assert(0 <= j * t <= 9 * t) by (nonlinear_arith)
        requires
            0 <= j <= 9,
    ;
    assert(p < TWO_53 * TWO_53) by (nonlinear_arith)
        requires
            p == n * NINE_TENTHS,
            n <= 562_949_953_421_312,
            TWO_53 == 9_007_199_254_740_992,
            NINE_TENTHS == 8_106_479_329_266_893,
    ;
    vstd::arithmetic::power2::lemma2_to64_rest();
    let d = step_divides(p, 53);
    let u = step(p);
    assert((k * d) * u == k * t) by (nonlinear_arith)
        requires
            d * u == t,
    ;
    nearest_keeps_multiples(p, k * d);
    nearest_is_near(p);
    step_bounds(p);
    let r = nearest_double(p);
    assert(u <= 1_013_309_916_158_362) by (nonlinear_arith)
        requires
            u == 1 || u * TWO_53 <= 2 * p,
            p == n * NINE_TENTHS,
            n <= 562_949_953_421_312,
            TWO_53 == 9_007_199_254_740_992,
            NINE_TENTHS == 8_106_479_329_266_893,
    ;
    assert(k * t <= r < (k + 1) * t) by {
        assert((k + 1) * t == k * t + t) by (nonlinear_arith);
    }
    vstd::arithmetic::div_mod::lemma_fundamental_div_mod_converse(
        r as int,
        t as int,
        k as int,
        r - k * t,
    );
}

/// The double nearest to `n`.
fn round_to_double(n: u128) -> (r: u128)
    requires
        n <= 0x1_0000_0000_0000_0000_0000_0000_0000_00,
    ensures
        r == nearest_double(n as nat),
        r <= 2 * n,
{
    let mut u: u128 = 1;
    while n / u >= TWO_53
        invariant
            1 <= u <= n || u == 1,
            n <= 0x1_0000_0000_0000_0000_0000_0000_0000_00,
            step(n as nat) == u * step((n / u) as nat),
        decreases n / u,
    {
        proof {
            let q = (n / u) as nat;
            vstd::arithmetic::div_mod::lemma_div_denominator(n as int, u as int, 2);
            assert(n / (u * 2) as u128 == q / 2);
            assert(u * (2 * step(q / 2)) == (u * 2) * step(q / 2)) by (nonlinear_arith);
            assert(u * 2 <= n) by (nonlinear_arith)
                requires
                    n / u >= 2,
                    u >= 1,
            ;
        }
        u = u * 2;
    }
    proof {
        assert(step((n / u) as nat) == 1);
        assert(step(n as nat) == u) by (nonlinear_arith)
            requires
                step(n as nat) == u * step((n / u) as nat),
                step((n / u) as nat) == 1,
        ;
        nearest_is_near(n as nat);
        step_bounds(n as nat);
    }
    let below: u128 = n / u;
    let over: u128 = n % u;
    proof {
        vstd::arithmetic::div_mod::lemma_fundamental_div_mod(n as int, u as int);
        assert(below * u == u * below) by (nonlinear_arith);
        assert((below + 1) * u == u * below + u) by (nonlinear_arith);
    }
    if 2 * over < u || (2 * over == u && below % 2 == 0) {
        below * u
    } else {
        (below + 1) * u
    }
}

/// Nine tenths of a number of seconds: the number times 0.9 in double precision, without its
/// fraction.
pub fn nine_tenths(secs: u64) -> (r: u64)
    ensures
        r == nine_tenths_of(secs as nat),
{
    let near: u128 = round_to_double(secs as u128);
    assert(near * NINE_TENTHS <= 0x1_0000_0000_0000_0000_0000_0000_0000_00) by (nonlinear_arith)
        requires
            near <= 0x1_ffff_ffff_ffff_fffe,
            NINE_TENTHS == 8_106_479_329_266_893,
    ;
    let product: u128 = round_to_double(near * NINE_TENTHS);
    proof {
        if secs > 0 {
            nine_tenths_is_less(secs as nat);
        } else {
            assert(near == 0);
            assert(near * NINE_TENTHS == 0) by (nonlinear_arith)
                requires
                    near == 0,
            ;
        }
    }
    (product / TWO_53) as u64
}

/// Nine tenths are less than the whole, and up to 2^49 seconds exactly nine tenths, rounded down.
pub proof fn nine_tenths_are_taken(secs: u64, r: u64)
    requires
        call_ensures(nine_tenths, (secs,), r),
    ensures
        secs > 0 ==> r < secs,
        secs == 0 ==> r == 0,
        secs <= 562_949_953_421_312 ==> 10 * r <= 9 * secs < 10 * (r + 1),
{
    if secs > 0 {
        nine_tenths_is_less(secs as nat);
    }
    if secs <= 562_949_953_421_312 {
        nine_tenths_is_exact(secs as nat);
    }
}

/// Rounding diminishes a number by at most one part in 2^53.
proof fn nearest_is_not_low(n: nat)
    ensures
        n * (TWO_53 - 1) <= nearest_double(n) * TWO_53,
{
    step_bounds(n);
    nearest_is_near(n);
    if step(n) == 1 {
        assert(nearest_double(n) == n);
        assert(n * (TWO_53 - 1) <= n * TWO_53) by (nonlinear_arith);
    } else {
        let m = nearest_double(n);
        let u = step(n);
        assert(2 * (n * (TWO_53 - 1)) <= 2 * (m * TWO_53)) by (nonlinear_arith)
            requires
                2 * n - u <= 2 * m,
                u * TWO_53 <= 2 * n,
        ;
    }
}

/// For no number of seconds is the result further from nine tenths than rounding to doubles explains: ten
/// times the result and nine times the number differ by less than 2^16.
pub proof fn nine_tenths_are_near(secs: u64, r: u64)
    requires
        call_ensures(nine_tenths, (secs,), r),
    ensures
        9 * secs < 10 * r + 65_536,
        10 * r < 9 * secs + 65_536,
{
    let n = secs as nat;
    let t = TWO_53 as int;
    let m = nearest_double(n);
    let p = m * NINE_TENTHS as nat;
    let q = nearest_double(p);
    let f = q / (TWO_53 as nat);
    nearest_is_tight(n);
    nearest_is_tight(p);
    nearest_is_not_low(n);
    nearest_is_not_low(p);
    vstd::arithmetic::div_mod::lemma_fundamental_div_mod(q as int, t);
    assert(f == r);
    assert(f * t <= q < (f + 1) * t) by (nonlinear_arith)
        requires
            q == t * f + q % (TWO_53 as nat),
            0 <= q % (TWO_53 as nat) < t,
    ;
    // m is within one part in 2^53 of n, and q of p.
    let d: int = 2050;
    assert(n - d <= m <= n + d) by (nonlinear_arith)
        requires
            n <= 0xffff_ffff_ffff_ffff,
            m * TWO_53 <= n * (TWO_53 + 1),
            n * (TWO_53 - 1) <= m * TWO_53,
            TWO_53 == 9_007_199_254_740_992,
            d == 2050,
    ;
    assert(p == m * 8_106_479_329_266_893) by (nonlinear_arith)
        requires
            p == m * NINE_TENTHS as nat,
            NINE_TENTHS == 8_106_479_329_266_893,
    ;
    // Ten times p is nine times m times 2^53, and twice m.
    assert(10 * p == 9 * m * t + 2 * m) by (nonlinear_arith)
        requires
            p == m * 8_106_479_329_266_893,
            t == 9_007_199_254_740_992,
    ;
    assert(p <= (m + 1) * t) by (nonlinear_arith)
        requires
            10 * p == 9 * m * t + 2 * m,
            t == 9_007_199_254_740_992,
            m >= 0,
    ;
    assert(p - (m + 1) <= q <= p + (m + 1)) by (nonlinear_arith)
        requires
            q * TWO_53 <= p * (TWO_53 + 1),
            p * (TWO_53 - 1) <= q * TWO_53,
            p <= (m + 1) * t,
            t == TWO_53,
            TWO_53 == 9_007_199_254_740_992,
    ;
    assert(10 * (f * t) <= 9 * m * t + 2 * m + 10 * (m + 1));
    assert(9 * m * t + 2 * m - 10 * (m + 1) < 10 * ((f + 1) * t));
    assert(m <= 0xffff_ffff_ffff_ffff + 2050);
    assert(10 * f <= 9 * m + 30_000 && 9 * m <= 10 * f + 10 + 30_000) by (nonlinear_arith)
        requires
            10 * (f * t) <= 9 * m * t + 2 * m + 10 * (m + 1),
            9 * m * t + 2 * m - 10 * (m + 1) < 10 * ((f + 1) * t),
            0 <= m <= 0xffff_ffff_ffff_ffff + 2050,
            t == 9_007_199_254_740_992,
    ;
}

} // verus!
