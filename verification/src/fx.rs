//! Fixed-point scalar arithmetic.
//!
//! A root-space scalar is an `i64` holding `value * FX_ONE`, i.e. a binary
//! fixed-point number with [`FX_FRAC_BITS`] fractional bits.  Multiplication
//! and division round toward zero, mirroring the spec functions [`fx_mul`]
//! and [`fx_div`] exactly.

use vstd::prelude::*;

verus! {

/// Number of fractional bits in a root-space scalar.
pub const FX_FRAC_BITS: u32 = 24;

/// The root-space representation of the value one: `2^24`.
pub const FX_ONE: i64 = 16777216;

/// Number of fractional bits in a rigid-space scalar.
pub const RIGID_FRAC_BITS: u32 = 12;

/// `2^12`, the ratio between one root-space unit and one rigid-space unit.
pub const FX_NARROW: i64 = 4096;

/// Largest accepted simulation timestep, a fixed-point scalar (1024 s).
pub const FX_DT_MAX: i64 = 0x4_0000_0000;

/// Largest root-space scalar magnitude that narrows into an `i32`
/// rigid-space scalar: `(2^31 - 1) * FX_NARROW`.
pub const RIGID_RANGE_MAX: i64 = 0x7ff_ffff_f000;

/// Whether a root-space difference is close enough to the frame origin to be
/// represented in rigid space.
pub open spec fn in_rigid_range(d: int) -> bool {
    -RIGID_RANGE_MAX <= d <= RIGID_RANGE_MAX
}

/// Division truncated toward zero (the rounding of the executable scalar
/// operations), for a positive divisor.
pub open spec fn tdiv(x: int, d: int) -> int {
    if x >= 0 {
        x / d
    } else {
        -((-x) / d)
    }
}

/// The fixed-point product of two scalars: `a * b / FX_ONE`, truncated
/// toward zero.
pub open spec fn fx_mul(a: int, b: int) -> int {
    tdiv(a * b, FX_ONE as int)
}

/// The fixed-point quotient of two scalars: `a * FX_ONE / b`, truncated
/// toward zero, for `b > 0`.
pub open spec fn fx_div(a: int, b: int) -> int {
    tdiv(a * FX_ONE, b)
}

/// Narrowing a root-space scalar to the rigid-space grid: `x / FX_NARROW`,
/// truncated toward zero.
pub open spec fn fx_narrow(x: int) -> int {
    tdiv(x, FX_NARROW as int)
}

/// Widening a rigid-space scalar back to the root-space grid.
pub open spec fn fx_widen(x: int) -> int {
    x * FX_NARROW
}

proof fn lemma_div_bound(x: int, d: int)
    requires
        x >= 0,
        d >= 1,
    ensures
        0 <= x / d <= x,
{
    vstd::arithmetic::div_mod::lemma_div_nonincreasing(x, d);
    vstd::arithmetic::div_mod::lemma_div_pos_is_pos(x, d);
}

/// Truncating division never grows the magnitude of its argument.
pub proof fn lemma_tdiv_bound(x: int, d: int)
    requires
        d >= 1,
    ensures
        x >= 0 ==> 0 <= tdiv(x, d) <= x,
        x < 0 ==> x <= tdiv(x, d) <= 0,
{
    if x >= 0 {
        lemma_div_bound(x, d);
    } else {
        lemma_div_bound(-x, d);
    }
}

/// A nonnegative value divided by `d` is at most `c` whenever the value is at
/// most `c * d`.
pub proof fn lemma_tdiv_upper(x: int, d: int, c: int)
    requires
        0 <= x <= c * d,
        d >= 1,
        c >= 0,
    ensures
        0 <= tdiv(x, d) <= c,
{
    lemma_div_bound(x, d);
    assert(c * d == d * c) by (nonlinear_arith);
    vstd::arithmetic::div_mod::lemma_div_multiples_vanish(c, d);
    vstd::arithmetic::div_mod::lemma_div_is_ordered(x, d * c, d);
}

/// Truncating division maps `[-c*d, c*d]` into `[-c, c]`.
pub proof fn lemma_tdiv_range(x: int, d: int, c: int)
    requires
        d >= 1,
        c >= 0,
        -(c * d) <= x <= c * d,
    ensures
        -c <= tdiv(x, d) <= c,
{
    if x >= 0 {
        lemma_tdiv_upper(x, d, c);
    } else {
        lemma_tdiv_upper(-x, d, c);
    }
}

/// Truncating division of a nonnegative `i64` by a positive divisor.
pub fn div_trunc_nonneg(a: i64, d: i64) -> (r: i64)
    requires
        a >= 0,
        d >= 1,
    ensures
        r as int == tdiv(a as int, d as int),
        0 <= r <= a,
{
    proof {
        lemma_div_bound(a as int, d as int);
    }
    ((a as u64) / (d as u64)) as i64
}

/// Multiplying by a factor with magnitude at most `FX_ONE` never grows a
/// scalar's magnitude.
pub proof fn lemma_fx_mul_unit_bound(a: int, b: int, m: int)
    requires
        -FX_ONE <= a <= FX_ONE,
        -m <= b <= m,
        m >= 0,
    ensures
        -m <= fx_mul(a, b) <= m,
{
    assert(a * b <= (FX_ONE as int) * m && -(a * b) <= (FX_ONE as int) * m) by (nonlinear_arith)
        requires
            -FX_ONE <= a <= FX_ONE,
            -m <= b <= m,
            m >= 0,
    ;
    lemma_tdiv_bound(a * b, FX_ONE as int);
    vstd::arithmetic::div_mod::lemma_div_multiples_vanish(m, FX_ONE as int);
    assert((FX_ONE as int) * m / (FX_ONE as int) == m);
    if a * b >= 0 {
        assert(a * b <= (FX_ONE as int) * m);
        vstd::arithmetic::div_mod::lemma_div_is_ordered(a * b, (FX_ONE as int) * m, FX_ONE as int);
    } else {
        assert(-(a * b) <= (FX_ONE as int) * m);
        vstd::arithmetic::div_mod::lemma_div_is_ordered(-(a * b), (FX_ONE as int) * m, FX_ONE as int);
    }
}

/// The fixed-point product of two nonnegative scalars is nonnegative.
pub proof fn lemma_fx_mul_nonneg(a: int, b: int)
    requires
        0 <= a,
        0 <= b,
    ensures
        0 <= fx_mul(a, b),
{
    assert(0 <= a * b) by (nonlinear_arith)
        requires
            0 <= a,
            0 <= b,
    ;
    lemma_tdiv_bound(a * b, FX_ONE as int);
}

/// The fixed-point product of two scalars in `[0, FX_ONE]` stays in
/// `[0, FX_ONE]`.
pub proof fn lemma_fx_mul_range(a: int, b: int)
    requires
        0 <= a <= FX_ONE,
        0 <= b <= FX_ONE,
    ensures
        0 <= fx_mul(a, b) <= FX_ONE,
{
    lemma_fx_mul_nonneg(a, b);
    assert(a * b <= (FX_ONE as int) * (FX_ONE as int)) by (nonlinear_arith)
        requires
            0 <= a <= FX_ONE,
            0 <= b <= FX_ONE,
    ;
    lemma_tdiv_upper(a * b, FX_ONE as int, FX_ONE as int);
}

/// A fixed-point quotient `a / b` with `0 <= a <= b` lies in `[0, FX_ONE]`.
pub proof fn lemma_fx_div_unit(a: int, b: int)
    requires
        0 <= a <= b,
        1 <= b,
    ensures
        0 <= fx_div(a, b) <= FX_ONE,
{
    assert(0 <= a * FX_ONE <= (FX_ONE as int) * b) by (nonlinear_arith)
        requires
            0 <= a <= b,
    ;
    lemma_tdiv_upper(a * (FX_ONE as int), b, FX_ONE as int);
}

/// Fixed-point multiplication is commutative.
pub proof fn lemma_fx_mul_comm(a: int, b: int)
    ensures
        fx_mul(a, b) == fx_mul(b, a),
{
    assert(a * b == b * a) by (nonlinear_arith);
}

/// A fixed-point quotient `a / b` with `-b <= a <= b` lies in
/// `[-FX_ONE, FX_ONE]`.
pub proof fn lemma_fx_div_unit_signed(a: int, b: int)
    requires
        -b <= a <= b,
        1 <= b,
    ensures
        -FX_ONE <= fx_div(a, b) <= FX_ONE,
{
    if a >= 0 {
        lemma_fx_div_unit(a, b);
    } else {
        lemma_fx_div_unit(-a, b);
        assert(-(a * FX_ONE) == (-a) * FX_ONE) by (nonlinear_arith);
        assert(a * FX_ONE < 0) by (nonlinear_arith)
            requires
                a < 0,
        ;
    }
}

/// Fixed-point multiplication, truncating toward zero.
pub fn mul_fx(a: i64, b: i64) -> (r: i64)
    requires
        -0x7fff_ffff_ffff_ffff <= fx_mul(a as int, b as int) <= 0x7fff_ffff_ffff_ffff,
    ensures
        r as int == fx_mul(a as int, b as int),
{
    let p: i128 = (a as i128) * (b as i128);
    if p >= 0 {
        let q: u128 = (p as u128) / 16777216;
        proof {
            lemma_div_bound(p as int, FX_ONE as int);
        }
        q as i64
    } else {
        let m: u128 = (-p) as u128;
        let q: u128 = m / 16777216;
        proof {
            lemma_div_bound(m as int, FX_ONE as int);
        }
        -(q as i64)
    }
}

/// Fixed-point division by a positive divisor, truncating toward zero.
pub fn div_fx(a: i64, b: i64) -> (r: i64)
    requires
        b > 0,
        -0x7fff_ffff_ffff_ffff <= fx_div(a as int, b as int) <= 0x7fff_ffff_ffff_ffff,
    ensures
        r as int == fx_div(a as int, b as int),
{
    let p: i128 = (a as i128) * (FX_ONE as i128);
    if p >= 0 {
        let q: u128 = (p as u128) / (b as u128);
        proof {
            lemma_div_bound(p as int, b as int);
        }
        q as i64
    } else {
        let m: u128 = (-p) as u128;
        let q: u128 = m / (b as u128);
        proof {
            lemma_div_bound(m as int, b as int);
        }
        -(q as i64)
    }
}

/// Narrows a root-space difference onto the rigid-space grid, truncating
/// toward zero.  This is the one intentional precision-loss point of the
/// frame conversions: at most one rigid-space unit (`FX_NARROW` root-space
/// units) is lost, and the frame is re-centered every tick so the argument
/// stays small.
pub fn narrow_fx(d: i64) -> (r: i32)
    requires
        in_rigid_range(d as int),
    ensures
        r as int == fx_narrow(d as int),
{
    if d >= 0 {
        proof {
            lemma_tdiv_upper(d as int, FX_NARROW as int, 0x7fff_ffff);
        }
        ((d as u64) / 4096) as i32
    } else {
        proof {
            lemma_tdiv_upper(-(d as int), FX_NARROW as int, 0x7fff_ffff);
        }
        -((((-d) as u64) / 4096) as i32)
    }
}

/// Widens a rigid-space scalar back onto the root-space grid; exact.
pub fn widen_fx(x: i32) -> (r: i64)
    ensures
        r as int == fx_widen(x as int),
{
    (x as i64) * 4096
}

/// Narrowing and widening round-trips to within one rigid-space unit, and
/// exactly when the scalar already lies on the rigid grid.
pub proof fn lemma_narrow_round_trip(d: int)
    ensures
        -FX_NARROW < fx_widen(fx_narrow(d)) - d < FX_NARROW,
        d % (FX_NARROW as int) == 0 ==> fx_widen(fx_narrow(d)) == d,
{
    let g = FX_NARROW as int;
    if d >= 0 {
        vstd::arithmetic::div_mod::lemma_fundamental_div_mod(d, g);
        vstd::arithmetic::div_mod::lemma_mod_bound(d, g);
        assert(g * (d / g) == (d / g) * g) by (nonlinear_arith);
    } else {
        vstd::arithmetic::div_mod::lemma_fundamental_div_mod(-d, g);
        vstd::arithmetic::div_mod::lemma_mod_bound(-d, g);
        assert(g * ((-d) / g) == ((-d) / g) * g) by (nonlinear_arith);
        assert(fx_widen(fx_narrow(d)) == -(((-d) / g) * g));
        if d % g == 0 {
            vstd::arithmetic::div_mod::lemma_mod_neg_neg(d, g);
            assert((-d) % g == 0) by {
                vstd::arithmetic::div_mod::lemma_fundamental_div_mod(d, g);
                vstd::arithmetic::div_mod::lemma_mod_bound(d, g);
                assert((-d) == g * (-(d / g)) + 0) by (nonlinear_arith)
                    requires
                        d == g * (d / g),
                ;
                vstd::arithmetic::div_mod::lemma_mod_multiples_basic(-(d / g), g);
                assert(g * (-(d / g)) == (-(d / g)) * g) by (nonlinear_arith);
            }
        }
    }
}

/// The floor of the square root of a natural number, defined by recursion.
pub open spec fn sqrt_floor(n: nat) -> nat
    decreases n,
{
    if n == 0 {
        0
    } else {
        let s = sqrt_floor((n - 1) as nat);
        if (s + 1) * (s + 1) <= n {
            s + 1
        } else {
            s
        }
    }
}

/// `sqrt_floor(n)` is the unique natural whose square is at most `n` while
/// the next square exceeds `n`.
pub proof fn lemma_sqrt_floor_bounds(n: nat)
    ensures
        sqrt_floor(n) * sqrt_floor(n) <= n,
        n < (sqrt_floor(n) + 1) * (sqrt_floor(n) + 1),
    decreases n,
{
    if n == 0 {
        assert(sqrt_floor(n) == 0);
        assert(sqrt_floor(n) * sqrt_floor(n) <= n);
        assert(n < (sqrt_floor(n) + 1) * (sqrt_floor(n) + 1)) by (nonlinear_arith)
            requires
                n == 0,
                sqrt_floor(n) == 0,
        ;
    } else {
        lemma_sqrt_floor_bounds((n - 1) as nat);
        let s = sqrt_floor((n - 1) as nat);
        if (s + 1) * (s + 1) <= n {
            assert(sqrt_floor(n) == s + 1);
            assert(n - 1 < (s + 1) * (s + 1));
            assert(n < (s + 1 + 1) * (s + 1 + 1)) by (nonlinear_arith)
                requires
                    n <= (s + 1) * (s + 1),
            ;
            assert(sqrt_floor(n) + 1 == s + 1 + 1);
            assert(sqrt_floor(n) * sqrt_floor(n) <= n);
            assert(n < (sqrt_floor(n) + 1) * (sqrt_floor(n) + 1));
        } else {
            assert(sqrt_floor(n) == s);
            assert(sqrt_floor(n) * sqrt_floor(n) <= n);
            assert(n < (sqrt_floor(n) + 1) * (sqrt_floor(n) + 1));
        }
    }
}

/// Any natural bracketing `n` between consecutive squares is `sqrt_floor(n)`.
pub proof fn lemma_sqrt_floor_unique(n: nat, r: nat)
    requires
        r * r <= n,
        n < (r + 1) * (r + 1),
    ensures
        r == sqrt_floor(n),
{
    lemma_sqrt_floor_bounds(n);
    let s = sqrt_floor(n);
    assert(r < s + 1 && s < r + 1) by (nonlinear_arith)
        requires
            r * r <= n,
            n < (r + 1) * (r + 1),
            s * s <= n,
            n < (s + 1) * (s + 1),
    ;
}

/// Integer square root by bisection: returns the floor of the square root.
pub fn isqrt_u128(n: u128) -> (r: u64)
    ensures
        r as nat == sqrt_floor(n as nat),
{
    let mut lo: u128 = 0;
    let mut hi: u128 = 0x1_0000_0000_0000_0000;
    while lo + 1 < hi
        invariant
            lo < hi <= 0x1_0000_0000_0000_0000,
            (lo as nat) * (lo as nat) <= n as nat,
            (n as nat) < (hi as nat) * (hi as nat),
        decreases hi - lo,
    {
        let mid: u128 = lo + (hi - lo) / 2;
        assert(lo < mid < hi);
        assert(mid * mid <= 0xffff_ffff_ffff_ffff_ffff_ffff_ffff_ffff) by (nonlinear_arith)
            requires
                mid < 0x1_0000_0000_0000_0000u128,
        ;
        let sq: u128 = mid * mid;
        if sq <= n {
            lo = mid;
        } else {
            hi = mid;
        }
    }
    proof {
        lemma_sqrt_floor_unique(n as nat, lo as nat);
    }
    lo as u64
}

} // verus!
