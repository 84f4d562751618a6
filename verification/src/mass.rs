//! Fixed-point arithmetic for organism mass.
//!
//! A mass, a rate or a time delta is an `i64` counting thousandths of a unit
//! ([`SCALE`] steps per unit). Growth follows a surface-area law: per tick a
//! plant gains `rate * dt * mass^(2/3)`, where the two-thirds power is the
//! cube root of the squared mass, rounded down to a whole fixed-point step.
//! Upkeep removes `rate * dt * mass`, an exponential-decay model; a mass that
//! upkeep has driven below zero decays back toward zero.
use vstd::arithmetic::div_mod::lemma_div_is_ordered;
use vstd::arithmetic::div_mod::lemma_div_multiples_vanish;
use vstd::arithmetic::div_mod::lemma_div_pos_is_pos;
use vstd::prelude::*;

verus! {

/// Fixed-point steps per unit of mass, rate or time.
pub open const SCALE: i64 = 1000;

/// Largest mass the growth system accepts, in fixed-point steps.
pub open const MASS_LIMIT: i64 = 1_000_000_000_000_000;

/// Largest magnitude of mass the upkeep system accepts; growth applied to a
/// mass within [`MASS_LIMIT`] stays within this bound, so upkeep can always
/// follow growth in the same tick.
pub open const DECAY_MASS_LIMIT: i64 = 2_000_000_000_000_000;

/// Largest product of a rate and a time delta either system accepts, in
/// squared fixed-point steps: a decay or growth factor of a thousand per tick.
pub open const RATE_DT_LIMIT: i64 = 1_000_000_000;

/// `r` is the cube root of `x`, rounded down: the largest `r` with `r³ ≤ x`.
pub open spec fn is_floor_cbrt(r: int, x: int) -> bool {
    0 <= r && r * r * r <= x && x < (r + 1) * (r + 1) * (r + 1)
}

/// The cube root of `x`, rounded down. Meaningful for `x ≥ 0` (see
/// [`lemma_floor_cbrt_exists`]).
pub open spec fn floor_cbrt(x: int) -> int {
    choose|r: int| is_floor_cbrt(r, x)
}

proof fn lemma_cube_le(a: int, b: int)
    by (nonlinear_arith)
    requires
        0 <= a,
        a <= b,
    ensures
        a * a * a <= b * b * b,
{
}

proof fn lemma_cube_lt(a: int, b: int)
    by (nonlinear_arith)
    requires
        0 <= a,
        a < b,
    ensures
        a * a * a < b * b * b,
{
}

/// At most one integer is the rounded-down cube root of `x`.
pub proof fn lemma_floor_cbrt_unique(r1: int, r2: int, x: int)
    requires
        is_floor_cbrt(r1, x),
        is_floor_cbrt(r2, x),
    ensures
        r1 == r2,
{
    if r1 < r2 {
        lemma_cube_le(r1 + 1, r2);
        assert(false);
    }
    if r2 < r1 {
        lemma_cube_le(r2 + 1, r1);
        assert(false);
    }
}

/// Every nonnegative `x` has a rounded-down cube root, so [`floor_cbrt`]
/// denotes it.
pub proof fn lemma_floor_cbrt_exists(x: int)
    requires
        0 <= x,
    ensures
        is_floor_cbrt(floor_cbrt(x), x),
    decreases x,
{
    if x == 0 {
        assert(is_floor_cbrt(0, 0));
    } else {
        lemma_floor_cbrt_exists(x - 1);
        let r = floor_cbrt(x - 1);
        if (r + 1) * (r + 1) * (r + 1) <= x {
            lemma_cube_lt(r + 1, r + 2);
            assert(is_floor_cbrt(r + 1, x));
        } else {
            assert(is_floor_cbrt(r, x));
        }
    }
    assert(exists|r: int| is_floor_cbrt(r, x));
}

/// A witness for the rounded-down cube root pins [`floor_cbrt`] down.
pub proof fn lemma_floor_cbrt_agrees(r: int, x: int)
    requires
        is_floor_cbrt(r, x),
    ensures
        floor_cbrt(x) == r,
{
    assert(exists|r2: int| is_floor_cbrt(r2, x));
    lemma_floor_cbrt_unique(floor_cbrt(x), r, x);
}

/// The surface-area term of the growth law: `mass^(2/3)` in fixed point,
/// which is the cube root of `SCALE * mass²`, rounded down.
pub open spec fn surface_area(mass: int) -> int {
    floor_cbrt((SCALE as int) * mass * mass)
}

/// The mass after one growth step: `mass + rate * dt * mass^(2/3)`, with the
/// product divided back to fixed point. A mass at or below zero does not grow.
pub open spec fn grown_mass(mass: int, rate: int, dt: int) -> int {
    if mass <= 0 {
        mass
    } else {
        mass + (rate * dt * surface_area(mass)) / ((SCALE as int) * (SCALE as int))
    }
}

/// The mass after one upkeep step: `mass - rate * dt * mass` in fixed point.
/// Decay always moves the mass toward zero, so a negative mass gains.
pub open spec fn decayed_mass(mass: int, rate: int, dt: int) -> int {
    if mass >= 0 {
        mass - (rate * dt * mass) / ((SCALE as int) * (SCALE as int))
    } else {
        mass + (rate * dt * (-mass)) / ((SCALE as int) * (SCALE as int))
    }
}

/// The cube root of `x`, rounded down.
fn icbrt(x: u128) -> (r: u64)
    requires
        x as int <= 0x1_0000_0000_0000_0000_0000_0000_0000,
    ensures
        is_floor_cbrt(r as int, x as int),
{
    let mut lo: u64 = 0;
    let mut hi: u64 = 0x40_0000_0000;
    proof {
        assert((0x40_0000_0000 as int) * (0x40_0000_0000 as int) * (0x40_0000_0000 as int)
            == 0x4_0000_0000_0000_0000_0000_0000_0000) by (nonlinear_arith);
    }
    while lo + 1 < hi
        invariant
            lo < hi,
            hi <= 0x40_0000_0000,
            (lo as int) * (lo as int) * (lo as int) <= x as int,
            (x as int) < (hi as int) * (hi as int) * (hi as int),
        decreases hi - lo,
    {
        let mid = lo + (hi - lo) / 2;
        let m = mid as u128;
        proof {
            assert((mid as int) * (mid as int) <= 0x1000_0000_0000_0000_0000)
                by (nonlinear_arith)
                requires
                    mid as int <= 0x40_0000_0000,
            ;
            assert((mid as int) * (mid as int) * (mid as int)
                <= 0x4_0000_0000_0000_0000_0000_0000_0000)
                by (nonlinear_arith)
                requires
                    mid as int <= 0x40_0000_0000,
            ;
        }
        let c = m * m * m;
        if c <= x {
            lo = mid;
        } else {
            hi = mid;
        }
    }
    lo
}

/// Applies one growth step to a plant's mass, as the growth system does for
/// every plant each tick. The result is exactly [`grown_mass`]; growth never
/// shrinks a mass, and a mass within [`MASS_LIMIT`] stays within
/// [`DECAY_MASS_LIMIT`], so upkeep can run on the result.
pub fn apply_growth(mass: i64, rate: i64, dt: i64) -> (new_mass: i64)
    requires
        0 <= rate,
        0 <= dt,
        (rate as int) * (dt as int) <= RATE_DT_LIMIT as int,
        mass as int <= MASS_LIMIT as int,
    ensures
        new_mass as int == grown_mass(mass as int, rate as int, dt as int),
        mass <= new_mass,
        new_mass as int <= DECAY_MASS_LIMIT as int,
{
    if mass <= 0 {
        return mass;
    }
    let m = mass as u128;
    proof {
        assert((1000 as int) * (m as int) * (m as int)
            <= 0x1_0000_0000_0000_0000_0000_0000_0000)
            by (nonlinear_arith)
            requires
                0 <= m as int <= 1_000_000_000_000_000,
        ;
        assert((1000 as int) * (m as int) <= 0x8000_0000_0000_0000) by (nonlinear_arith)
            requires
                0 <= m as int <= 1_000_000_000_000_000,
        ;
    }
    let x = (SCALE as u128) * m * m;
    let s = icbrt(x);
    proof {
        lemma_floor_cbrt_agrees(s as int, x as int);
        assert((1000 as int) * (m as int) * (m as int)
            <= 100_000_000_000 * 100_000_000_000 * 100_000_000_000)
            by (nonlinear_arith)
            requires
                0 <= m as int <= 1_000_000_000_000_000,
        ;
        if s > 100_000_000_000 {
            lemma_cube_le(100_000_000_001, s as int);
            assert(false);
        }
        assert((rate as int) * (dt as int) * (s as int)
            <= 1_000_000_000 * 100_000_000_000)
            by (nonlinear_arith)
            requires
                0 <= (rate as int) * (dt as int) <= 1_000_000_000,
                0 <= s as int <= 100_000_000_000,
                0 <= rate,
                0 <= dt,
        ;
    }
    proof {
        assert(SCALE == 1000);
    }
    let num = (rate as u128) * (dt as u128) * (s as u128);
    let denom: u128 = 1_000_000;
    let delta128 = num / denom;
    proof {
        assert((SCALE as int) * (SCALE as int) == 1_000_000);
        lemma_div_is_ordered(num as int, 100_000_000_000_000_000_000, 1_000_000);
    }
    let delta = delta128 as i64;
    mass + delta
}

/// Applies one upkeep step to a structure's mass, as the upkeep system does
/// for every structure each tick. The result is exactly [`decayed_mass`]:
/// decay never increases a nonnegative mass and never decreases a
/// nonpositive one.
pub fn apply_upkeep(mass: i64, rate: i64, dt: i64) -> (new_mass: i64)
    requires
        0 <= rate,
        0 <= dt,
        (rate as int) * (dt as int) <= RATE_DT_LIMIT as int,
        -(DECAY_MASS_LIMIT as int) <= mass as int <= DECAY_MASS_LIMIT as int,
    ensures
        new_mass as int == decayed_mass(mass as int, rate as int, dt as int),
        mass >= 0 ==> new_mass <= mass,
        mass <= 0 ==> new_mass >= mass,
{
    let neg = mass < 0;
    let mag: u64 = if neg {
        (-mass) as u64
    } else {
        mass as u64
    };
    proof {
        assert(SCALE == 1000);
        assert((rate as int) * (dt as int) * (mag as int)
            <= 1_000_000_000 * 2_000_000_000_000_000)
            by (nonlinear_arith)
            requires
                0 <= (rate as int) * (dt as int) <= 1_000_000_000,
                0 <= mag as int <= 2_000_000_000_000_000,
                0 <= rate,
                0 <= dt,
        ;
        assert(mag as int == 0 ==> (rate as int) * (dt as int) * (mag as int) == 0)
            by (nonlinear_arith);
    }
    let num = (rate as u128) * (dt as u128) * (mag as u128);
    let denom: u128 = 1_000_000;
    let delta128 = num / denom;
    proof {
        assert((SCALE as int) * (SCALE as int) == 1_000_000);
        lemma_div_is_ordered(num as int, 2_000_000_000_000_000_000_000_000, 1_000_000);
        lemma_div_pos_is_pos(num as int, 1_000_000);
    }
    let delta = delta128 as i64;
    if neg {
        mass + delta
    } else {
        mass - delta
    }
}

/// Growth is monotone: for every positive mass and nonnegative rate and time
/// delta, the grown mass is at least the old mass.
pub proof fn lemma_growth_monotonic(mass: int, rate: int, dt: int)
    requires
        mass > 0,
        rate >= 0,
        dt >= 0,
    ensures
        grown_mass(mass, rate, dt) >= mass,
{
    assert(0 <= (SCALE as int) * mass * mass) by (nonlinear_arith)
        requires
            mass > 0,
    ;
    lemma_floor_cbrt_exists((SCALE as int) * mass * mass);
    let s = surface_area(mass);
    assert(0 <= rate * dt * s) by (nonlinear_arith)
        requires
            rate >= 0,
            dt >= 0,
            s >= 0,
    ;
    lemma_div_pos_is_pos(rate * dt * s, (SCALE as int) * (SCALE as int));
}

/// Upkeep is a loss: for every nonnegative mass and nonnegative rate and time
/// delta, the decayed mass is at most the old mass; and while the decay
/// fraction `rate * dt` is at most one, the decayed mass does not drop below
/// zero.
pub proof fn lemma_upkeep_bounded(mass: int, rate: int, dt: int)
    requires
        mass >= 0,
        rate >= 0,
        dt >= 0,
    ensures
        decayed_mass(mass, rate, dt) <= mass,
        rate * dt <= (SCALE as int) * (SCALE as int) ==> decayed_mass(mass, rate, dt) >= 0,
{
    let s2 = (SCALE as int) * (SCALE as int);
    assert(0 <= rate * dt * mass) by (nonlinear_arith)
        requires
            rate >= 0,
            dt >= 0,
            mass >= 0,
    ;
    lemma_div_pos_is_pos(rate * dt * mass, s2);
    if rate * dt <= s2 {
        assert(rate * dt * mass <= s2 * mass) by (nonlinear_arith)
            requires
                0 <= rate * dt <= s2,
                mass >= 0,
        ;
        lemma_div_is_ordered(rate * dt * mass, s2 * mass, s2);
        lemma_div_multiples_vanish(mass, s2);
    }
}

} // verus!
