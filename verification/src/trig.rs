//! Fixed-point circular functions on root-space scalars.
//!
//! Angles are fixed-point radians ([`crate::fx::FX_ONE`] units per radian).
//! The constants below are chosen so that `FX_PI == 2 * FX_HALF_PI` and
//! `FX_TWO_PI == 4 * FX_HALF_PI` hold exactly; every angle is first reduced
//! modulo `FX_TWO_PI`, which makes periodicity an exact identity of the
//! specification (see [`lemma_angle_periodic`]).
//!
//! `sin_fx` and `cos_fx` reduce to a quadrant and evaluate a truncated Taylor
//! polynomial; `atan2_fx` reduces to an octant and evaluates a minimax
//! arctangent polynomial.  On the coordinate axes the results are exact:
//! `atan2_fx(y, 0) == FX_HALF_PI` for `y > 0`, and the sine and cosine of
//! exact multiples of `FX_HALF_PI` are exactly `0`, `FX_ONE` or `-FX_ONE`.

use vstd::prelude::*;

use crate::fx::{
    div_trunc_nonneg, div_fx, fx_div, fx_mul, lemma_fx_div_unit, lemma_fx_mul_nonneg,
    lemma_fx_mul_range, lemma_fx_mul_unit_bound, lemma_tdiv_bound, lemma_tdiv_upper, mul_fx,
    tdiv, FX_ONE,
};

verus! {

/// A quarter turn, `round(pi/2 * FX_ONE)`.
pub const FX_HALF_PI: i64 = 26353589;

/// A half turn, exactly `2 * FX_HALF_PI`.
pub const FX_PI: i64 = 52707178;

/// A full turn, exactly `4 * FX_HALF_PI`; the exact period of the angle
/// functions in this module.
pub const FX_TWO_PI: i64 = 105414356;

/// An angle reduced to the canonical range `[0, FX_TWO_PI)`.
pub open spec fn angle_norm(theta: int) -> int {
    theta % (FX_TWO_PI as int)
}

/// The sine polynomial on a reduced angle `x` in `[0, FX_HALF_PI]`:
/// the Taylor series `x (1 - u/6 (1 - u/20 (1 - u/42 (1 - u/72))))` with
/// `u = x^2`, evaluated in fixed point and capped at `FX_ONE`.
pub open spec fn spec_sin_poly(x: int) -> int {
    let u = tdiv(x * x, FX_ONE as int);
    let t4 = FX_ONE - tdiv(u, 72);
    let t3 = FX_ONE - fx_mul(tdiv(u, 42), t4);
    let t2 = FX_ONE - fx_mul(tdiv(u, 20), t3);
    let t1 = FX_ONE - fx_mul(tdiv(u, 6), t2);
    let s = fx_mul(t1, x);
    if s > FX_ONE {
        FX_ONE as int
    } else {
        s
    }
}

/// The cosine polynomial on a reduced angle `x` in `[0, FX_HALF_PI]`:
/// the Taylor series `1 - u/2 (1 - u/12 (1 - u/30 (1 - u/56)))` with
/// `u = x^2`, evaluated in fixed point and floored at `0`.
pub open spec fn spec_cos_poly(x: int) -> int {
    let u = tdiv(x * x, FX_ONE as int);
    let t4 = FX_ONE - tdiv(u, 56);
    let t3 = FX_ONE - fx_mul(tdiv(u, 30), t4);
    let t2 = FX_ONE - fx_mul(tdiv(u, 12), t3);
    let t1 = FX_ONE - fx_mul(t2, tdiv(u, 2));
    if t1 < 0 {
        0
    } else {
        t1
    }
}

/// The sine of a fixed-point angle, by reduction to a quadrant.
pub open spec fn spec_sin_fx(theta: int) -> int {
    let n = angle_norm(theta);
    let q = n / (FX_HALF_PI as int);
    let rem = n % (FX_HALF_PI as int);
    if q == 0 {
        spec_sin_poly(rem)
    } else if q == 1 {
        spec_cos_poly(rem)
    } else if q == 2 {
        -spec_sin_poly(rem)
    } else {
        -spec_cos_poly(rem)
    }
}

/// The cosine of a fixed-point angle, by reduction to a quadrant.
pub open spec fn spec_cos_fx(theta: int) -> int {
    let n = angle_norm(theta);
    let q = n / (FX_HALF_PI as int);
    let rem = n % (FX_HALF_PI as int);
    if q == 0 {
        spec_cos_poly(rem)
    } else if q == 1 {
        -spec_sin_poly(rem)
    } else if q == 2 {
        -spec_cos_poly(rem)
    } else {
        spec_sin_poly(rem)
    }
}

/// The arctangent polynomial on a slope `t` in `[0, FX_ONE]`: a degree-nine
/// minimax approximation of `atan(t)` evaluated in fixed point.
pub open spec fn spec_atan_poly(t: int) -> int {
    let u = fx_mul(t, t);
    let w4 = 1428306 - fx_mul(u, 349554);
    let w3 = 3022514 - fx_mul(u, w4);
    let w2 = 5541433 - fx_mul(u, w3);
    let w1 = 16774968 - fx_mul(u, w2);
    fx_mul(t, w1)
}

/// The angle of the vector `(x, y)` from the positive x axis, in
/// `[-FX_PI, FX_PI]`, by reduction to an octant; `(0, 0)` maps to `0`.
pub open spec fn spec_atan2_fx(y: int, x: int) -> int {
    let ax = if x >= 0 { x } else { -x };
    let ay = if y >= 0 { y } else { -y };
    let phi = if ay <= ax {
        if ax == 0 {
            0
        } else {
            spec_atan_poly(fx_div(ay, ax))
        }
    } else {
        FX_HALF_PI - spec_atan_poly(fx_div(ax, ay))
    };
    if x >= 0 {
        if y >= 0 {
            phi
        } else {
            -phi
        }
    } else {
        if y >= 0 {
            FX_PI - phi
        } else {
            -(FX_PI - phi)
        }
    }
}

/// Shifting an angle by a full turn does not change its reduced form, nor
/// therefore its sine or cosine: the angle functions are exactly periodic.
pub proof fn lemma_angle_periodic(theta: int)
    ensures
        angle_norm(theta + FX_TWO_PI) == angle_norm(theta),
        spec_sin_fx(theta + FX_TWO_PI) == spec_sin_fx(theta),
        spec_cos_fx(theta + FX_TWO_PI) == spec_cos_fx(theta),
{
    vstd::arithmetic::div_mod::lemma_mod_add_multiples_vanish(theta, FX_TWO_PI as int);
}

/// On the coordinate axes the angle is exact: `0` along positive x (and at
/// the origin), `FX_HALF_PI` along positive y, `FX_PI` along negative x, and
/// `-FX_HALF_PI` along negative y.
pub proof fn lemma_atan2_exact_on_axes(y: int, x: int)
    ensures
        x > 0 ==> spec_atan2_fx(0, x) == 0,
        y > 0 ==> spec_atan2_fx(y, 0) == FX_HALF_PI,
        x < 0 ==> spec_atan2_fx(0, x) == FX_PI,
        y < 0 ==> spec_atan2_fx(y, 0) == -FX_HALF_PI,
        spec_atan2_fx(0, 0) == 0,
{
    if x != 0 {
        let ax = if x >= 0 { x } else { -x };
        lemma_atan_poly_at_zero(0, ax);
    }
    if y != 0 {
        let ay = if y >= 0 { y } else { -y };
        lemma_atan_poly_at_zero(0, ay);
    }
}

/// The arctangent polynomial vanishes on a zero slope.
proof fn lemma_atan_poly_at_zero(a: int, b: int)
    requires
        a == 0,
        b >= 1,
    ensures
        fx_div(a, b) == 0,
        spec_atan_poly(0) == 0,
{
    assert(a * FX_ONE == 0) by (nonlinear_arith)
        requires
            a == 0,
    ;
    vstd::arithmetic::div_mod::lemma_div_of0(b);
    let u = fx_mul(0, 0);
    assert(0 * 0 == 0) by (nonlinear_arith);
    vstd::arithmetic::div_mod::lemma_div_of0(FX_ONE as int);
    assert(u == 0);
    assert(fx_mul(0, 349554) == 0) by {
        assert(0 * 349554 == 0) by (nonlinear_arith);
    }
    let w4 = 1428306 - fx_mul(u, 349554);
    assert(fx_mul(0, w4) == 0) by {
        assert(0 * w4 == 0) by (nonlinear_arith);
    }
    let w3 = 3022514 - fx_mul(u, w4);
    assert(fx_mul(0, w3) == 0) by {
        assert(0 * w3 == 0) by (nonlinear_arith);
    }
    let w2 = 5541433 - fx_mul(u, w3);
    assert(fx_mul(0, w2) == 0) by {
        assert(0 * w2 == 0) by (nonlinear_arith);
    }
    let w1 = 16774968 - fx_mul(u, w2);
    assert(fx_mul(0, w1) == 0) by {
        assert(0 * w1 == 0) by (nonlinear_arith);
    }
}

/// At exact multiples of a quarter turn the sine and cosine are exactly
/// `0`, `FX_ONE` or `-FX_ONE`.
pub proof fn lemma_sin_cos_exact_quadrants()
    ensures
        spec_sin_fx(0) == 0 && spec_cos_fx(0) == FX_ONE,
        spec_sin_fx(FX_HALF_PI as int) == FX_ONE && spec_cos_fx(FX_HALF_PI as int) == 0,
        spec_sin_fx(FX_PI as int) == 0 && spec_cos_fx(FX_PI as int) == -FX_ONE,
        spec_sin_fx(FX_PI + FX_HALF_PI) == -FX_ONE && spec_cos_fx(FX_PI + FX_HALF_PI) == 0,
{
    lemma_poly_at_zero();
    let h = FX_HALF_PI as int;
    let p = FX_TWO_PI as int;
    vstd::arithmetic::div_mod::lemma_small_mod(0nat, p as nat);
    vstd::arithmetic::div_mod::lemma_small_mod(h as nat, p as nat);
    vstd::arithmetic::div_mod::lemma_small_mod((2 * h) as nat, p as nat);
    vstd::arithmetic::div_mod::lemma_small_mod((3 * h) as nat, p as nat);
    vstd::arithmetic::div_mod::lemma_fundamental_div_mod_converse(0, h, 0, 0);
    vstd::arithmetic::div_mod::lemma_fundamental_div_mod_converse(h, h, 1, 0);
    vstd::arithmetic::div_mod::lemma_fundamental_div_mod_converse(2 * h, h, 2, 0);
    vstd::arithmetic::div_mod::lemma_fundamental_div_mod_converse(3 * h, h, 3, 0);
}

/// Both polynomials are exact at a zero reduced angle.
proof fn lemma_poly_at_zero()
    ensures
        spec_sin_poly(0) == 0,
        spec_cos_poly(0) == FX_ONE,
{
    vstd::arithmetic::div_mod::lemma_div_of0(FX_ONE as int);
    vstd::arithmetic::div_mod::lemma_div_of0(72);
    vstd::arithmetic::div_mod::lemma_div_of0(56);
    vstd::arithmetic::div_mod::lemma_div_of0(42);
    vstd::arithmetic::div_mod::lemma_div_of0(30);
    vstd::arithmetic::div_mod::lemma_div_of0(20);
    vstd::arithmetic::div_mod::lemma_div_of0(12);
    vstd::arithmetic::div_mod::lemma_div_of0(6);
    vstd::arithmetic::div_mod::lemma_div_of0(2);
    assert(0 * 0 == 0) by (nonlinear_arith);
    assert(fx_mul(0, FX_ONE - 0) == 0 && fx_mul(FX_ONE as int, 0) == 0) by {
        assert(0 * ((FX_ONE - 0) as int) == 0 && (FX_ONE as int) * 0 == 0) by (nonlinear_arith);
    }
    assert(fx_mul((FX_ONE - fx_mul(0, FX_ONE - 0)) as int, 0) == 0) by {
        assert(((FX_ONE - fx_mul(0, FX_ONE - 0)) as int) * 0 == 0) by (nonlinear_arith);
    }
}

/// Reduces an angle to the canonical range `[0, FX_TWO_PI)`.
pub fn normalize_angle(theta: i64) -> (r: i64)
    ensures
        r as int == angle_norm(theta as int),
        0 <= r < FX_TWO_PI,
{
    let ghost p_int: int = FX_TWO_PI as int;
    proof {
        vstd::arithmetic::div_mod::lemma_mod_bound(theta as int, p_int);
    }
    if theta >= 0 {
        let r: u64 = (theta as u64) % 105414356;
        r as i64
    } else {
        let a: u64 = ((-(theta + 1)) as u64) + 1;
        let m: u64 = a % 105414356;
        proof {
            let t: int = theta as int;
            let av: int = a as int;
            let k: int = av / p_int;
            vstd::arithmetic::div_mod::lemma_fundamental_div_mod(av, p_int);
            if m == 0 {
                assert(t == (-k) * p_int) by (nonlinear_arith)
                    requires
                        t == -av,
                        av == p_int * k,
                ;
                vstd::arithmetic::div_mod::lemma_mod_multiples_basic(-k, p_int);
            } else {
                assert(t == p_int * (-k - 1) + (p_int - m)) by (nonlinear_arith)
                    requires
                        t == -av,
                        av == p_int * k + m,
                ;
                vstd::arithmetic::div_mod::lemma_mod_multiples_vanish(
                    -k - 1,
                    p_int - m,
                    p_int,
                );
                vstd::arithmetic::div_mod::lemma_small_mod(
                    (p_int - m) as nat,
                    p_int as nat,
                );
            }
        }
        if m == 0 {
            0
        } else {
            (105414356 - m) as i64
        }
    }
}

/// The sine polynomial on `[0, FX_HALF_PI]`.
fn sin_poly(x: i64) -> (r: i64)
    requires
        0 <= x <= FX_HALF_PI,
    ensures
        r as int == spec_sin_poly(x as int),
        0 <= r <= FX_ONE,
{
    proof {
        assert((x as int) * (x as int) <= 41_500_000 * (FX_ONE as int)) by (nonlinear_arith)
            requires
                0 <= x <= FX_HALF_PI,
        ;
        lemma_tdiv_upper((x as int) * (x as int), FX_ONE as int, 41_500_000);
    }
    let xx: i64 = ((x as u64 * x as u64) / 16777216) as i64;
    let u: i64 = xx;
    let q4: i64 = div_trunc_nonneg(u, 72);
    proof {
        lemma_tdiv_upper(u as int, 72, 600_000);
    }
    let t4: i64 = FX_ONE - q4;
    let q3: i64 = div_trunc_nonneg(u, 42);
    proof {
        lemma_tdiv_upper(u as int, 42, 1_000_000);
        lemma_fx_mul_range(q3 as int, t4 as int);
    }
    let t3: i64 = FX_ONE - mul_fx(q3, t4);
    let q2: i64 = div_trunc_nonneg(u, 20);
    proof {
        lemma_tdiv_upper(u as int, 20, 2_100_000);
        lemma_fx_mul_range(q2 as int, t3 as int);
    }
    let t2: i64 = FX_ONE - mul_fx(q2, t3);
    let q1: i64 = div_trunc_nonneg(u, 6);
    proof {
        lemma_tdiv_upper(u as int, 6, 7_000_000);
        lemma_fx_mul_range(q1 as int, t2 as int);
    }
    let t1: i64 = FX_ONE - mul_fx(q1, t2);
    proof {
        lemma_fx_mul_nonneg(t1 as int, x as int);
        lemma_fx_mul_unit_bound(t1 as int, x as int, FX_HALF_PI as int);
    }
    let s: i64 = mul_fx(t1, x);
    if s > FX_ONE {
        FX_ONE
    } else {
        s
    }
}

/// The cosine polynomial on `[0, FX_HALF_PI]`.
fn cos_poly(x: i64) -> (r: i64)
    requires
        0 <= x <= FX_HALF_PI,
    ensures
        r as int == spec_cos_poly(x as int),
        0 <= r <= FX_ONE,
{
    proof {
        assert((x as int) * (x as int) <= 41_500_000 * (FX_ONE as int)) by (nonlinear_arith)
            requires
                0 <= x <= FX_HALF_PI,
        ;
        lemma_tdiv_upper((x as int) * (x as int), FX_ONE as int, 41_500_000);
    }
    let xx: i64 = ((x as u64 * x as u64) / 16777216) as i64;
    let u: i64 = xx;
    let q4: i64 = div_trunc_nonneg(u, 56);
    proof {
        lemma_tdiv_upper(u as int, 56, 800_000);
    }
    let t4: i64 = FX_ONE - q4;
    let q3: i64 = div_trunc_nonneg(u, 30);
    proof {
        lemma_tdiv_upper(u as int, 30, 1_400_000);
        lemma_fx_mul_range(q3 as int, t4 as int);
    }
    let t3: i64 = FX_ONE - mul_fx(q3, t4);
    let q2: i64 = div_trunc_nonneg(u, 12);
    proof {
        lemma_tdiv_upper(u as int, 12, 3_500_000);
        lemma_fx_mul_range(q2 as int, t3 as int);
    }
    let t2: i64 = FX_ONE - mul_fx(q2, t3);
    let q1: i64 = div_trunc_nonneg(u, 2);
    proof {
        lemma_tdiv_upper(u as int, 2, 20_750_000);
        lemma_fx_mul_nonneg(t2 as int, q1 as int);
        lemma_fx_mul_unit_bound(t2 as int, q1 as int, 20_750_000);
    }
    let t1: i64 = FX_ONE - mul_fx(t2, q1);
    if t1 < 0 {
        0
    } else {
        t1
    }
}

/// The sine of a fixed-point angle.
pub fn sin_fx(theta: i64) -> (r: i64)
    ensures
        r as int == spec_sin_fx(theta as int),
        -FX_ONE <= r <= FX_ONE,
{
    let n: i64 = normalize_angle(theta);
    let q: u64 = (n as u64) / 26353589;
    let rem_u: u64 = (n as u64) % 26353589;
    proof {
        vstd::arithmetic::div_mod::lemma_mod_bound(n as int, FX_HALF_PI as int);
        vstd::arithmetic::div_mod::lemma_fundamental_div_mod(n as int, FX_HALF_PI as int);
        let qi: int = (n as int) / (FX_HALF_PI as int);
        assert(qi <= 3) by (nonlinear_arith)
            requires
                (n as int) == (FX_HALF_PI as int) * qi + (n as int) % (FX_HALF_PI as int),
                0 <= (n as int) % (FX_HALF_PI as int),
                (n as int) < 4 * (FX_HALF_PI as int),
                FX_HALF_PI == 26353589,
        ;
        vstd::arithmetic::div_mod::lemma_div_pos_is_pos(n as int, FX_HALF_PI as int);
    }
    let rem: i64 = rem_u as i64;
    if q == 0 {
        sin_poly(rem)
    } else if q == 1 {
        cos_poly(rem)
    } else if q == 2 {
        -sin_poly(rem)
    } else {
        -cos_poly(rem)
    }
}

/// The cosine of a fixed-point angle.
pub fn cos_fx(theta: i64) -> (r: i64)
    ensures
        r as int == spec_cos_fx(theta as int),
        -FX_ONE <= r <= FX_ONE,
{
    let n: i64 = normalize_angle(theta);
    let q: u64 = (n as u64) / 26353589;
    let rem_u: u64 = (n as u64) % 26353589;
    proof {
        vstd::arithmetic::div_mod::lemma_mod_bound(n as int, FX_HALF_PI as int);
        vstd::arithmetic::div_mod::lemma_fundamental_div_mod(n as int, FX_HALF_PI as int);
        let qi: int = (n as int) / (FX_HALF_PI as int);
        assert(qi <= 3) by (nonlinear_arith)
            requires
                (n as int) == (FX_HALF_PI as int) * qi + (n as int) % (FX_HALF_PI as int),
                0 <= (n as int) % (FX_HALF_PI as int),
                (n as int) < 4 * (FX_HALF_PI as int),
                FX_HALF_PI == 26353589,
        ;
        vstd::arithmetic::div_mod::lemma_div_pos_is_pos(n as int, FX_HALF_PI as int);
    }
    let rem: i64 = rem_u as i64;
    if q == 0 {
        cos_poly(rem)
    } else if q == 1 {
        -sin_poly(rem)
    } else if q == 2 {
        -cos_poly(rem)
    } else {
        sin_poly(rem)
    }
}

/// The arctangent polynomial on a slope in `[0, FX_ONE]`; the result is
/// in `[0, 16774968]`, strictly inside a quarter turn.
fn atan_poly(t: i64) -> (r: i64)
    requires
        0 <= t <= FX_ONE,
    ensures
        r as int == spec_atan_poly(t as int),
        0 <= r <= 16774968,
{
    proof {
        lemma_fx_mul_range(t as int, t as int);
    }
    let u: i64 = mul_fx(t, t);
    proof {
        lemma_fx_mul_range(u as int, 349554);
        lemma_fx_mul_unit_bound(u as int, 349554, 349554);
    }
    let w4: i64 = 1428306 - mul_fx(u, 349554);
    proof {
        lemma_fx_mul_nonneg(u as int, w4 as int);
        lemma_fx_mul_unit_bound(u as int, w4 as int, 1428306);
    }
    let w3: i64 = 3022514 - mul_fx(u, w4);
    proof {
        lemma_fx_mul_nonneg(u as int, w3 as int);
        lemma_fx_mul_unit_bound(u as int, w3 as int, 3022514);
    }
    let w2: i64 = 5541433 - mul_fx(u, w3);
    proof {
        lemma_fx_mul_nonneg(u as int, w2 as int);
        lemma_fx_mul_unit_bound(u as int, w2 as int, 5541433);
    }
    let w1: i64 = 16774968 - mul_fx(u, w2);
    proof {
        lemma_fx_mul_nonneg(t as int, w1 as int);
        lemma_fx_mul_unit_bound(t as int, w1 as int, 16774968);
    }
    mul_fx(t, w1)
}

/// The angle of the vector `(x, y)` from the positive x axis, in fixed-point
/// radians in `[-FX_PI, FX_PI]`.  On the axes the result is exact: `0` along
/// positive x (and at the origin), `FX_HALF_PI` along positive y, `FX_PI`
/// along negative x, and `-FX_HALF_PI` along negative y.
pub fn atan2_fx(y: i64, x: i64) -> (r: i64)
    requires
        x > i64::MIN,
        y > i64::MIN,
    ensures
        r as int == spec_atan2_fx(y as int, x as int),
        -FX_PI <= r <= FX_PI,
{
    let ax: i64 = if x >= 0 { x } else { -x };
    let ay: i64 = if y >= 0 { y } else { -y };
    let phi: i64 = if ay <= ax {
        if ax == 0 {
            0
        } else {
            proof {
                lemma_fx_div_unit(ay as int, ax as int);
            }
            let t: i64 = div_fx(ay, ax);
            atan_poly(t)
        }
    } else {
        proof {
            lemma_fx_div_unit(ax as int, ay as int);
        }
        let t: i64 = div_fx(ax, ay);
        FX_HALF_PI - atan_poly(t)
    };
    if x >= 0 {
        if y >= 0 {
            phi
        } else {
            -phi
        }
    } else {
        if y >= 0 {
            FX_PI - phi
        } else {
            -(FX_PI - phi)
        }
    }
}

} // verus!
