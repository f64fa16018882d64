//! The cosmetic scroll layers: the background moves at the base
//! score-dependent speed and the ground layer at twice that speed, each
//! wrapping back to the origin once it has scrolled 288 units left. They
//! have no gameplay consequence beyond sharing the speed formula.

use vstd::prelude::*;

use crate::params::{MAX_TICK_CS, SCROLL_WRAP_X, SPEED_BASE, VEL_SCALE, cap100, score_speed_term};

verus! {

/// A scroll layer's x after one tick at speed `mul` * (100 + min(score,
/// 100)) units per second: shifted left, wrapped to 0 at -288 units.
pub open spec fn scroll_after(x: int, dt: int, score: int, mul: int) -> int {
    let x1 = x - mul * (SPEED_BASE + cap100(score)) * VEL_SCALE * dt;
    if x1 <= SCROLL_WRAP_X {
        0
    } else {
        x1
    }
}

/// Advances a scroll layer whose speed is `mul` times the base formula.
fn scroll_step(x: i64, dt: i64, score: u32, mul: i64) -> (r: i64)
    requires
        SCROLL_WRAP_X < x <= 0,
        0 <= dt <= MAX_TICK_CS,
        1 <= mul <= 2,
    ensures
        r == scroll_after(x as int, dt as int, score as int, mul as int),
        SCROLL_WRAP_X < r <= 0,
{
    let m = score_speed_term(score);
    proof {
        let mu = mul as int;
        let sp = SPEED_BASE + m as int;
        assert(0 <= mu * sp <= 400) by (nonlinear_arith)
            requires
                1 <= mu <= 2,
                100 <= sp <= 200,
        ;
    }
    let term = mul * (SPEED_BASE + m as i64) * VEL_SCALE;
    proof {
        let tm = term as int;
        let d = dt as int;
        assert(0 <= tm * d <= 4_000_000 * MAX_TICK_CS) by (nonlinear_arith)
            requires
                0 <= tm <= 4_000_000,
                0 <= d <= MAX_TICK_CS,
        ;
    }
    let x1 = x - term * dt;
    if x1 <= SCROLL_WRAP_X {
        0
    } else {
        x1
    }
}

/// Advances the background layer, which scrolls at the base speed
/// (100 + min(score, 100)) units per second.
pub fn scroll_background(x: i64, dt: i64, score: u32) -> (r: i64)
    requires
        SCROLL_WRAP_X < x <= 0,
        0 <= dt <= MAX_TICK_CS,
    ensures
        r == scroll_after(x as int, dt as int, score as int, 1),
        SCROLL_WRAP_X < r <= 0,
{
    scroll_step(x, dt, score, 1)
}

/// Advances the ground layer, which scrolls at twice the base speed, the
/// same speed as the obstacle tracks.
pub fn scroll_base(x: i64, dt: i64, score: u32) -> (r: i64)
    requires
        SCROLL_WRAP_X < x <= 0,
        0 <= dt <= MAX_TICK_CS,
    ensures
        r == scroll_after(x as int, dt as int, score as int, 2),
        SCROLL_WRAP_X < r <= 0,
{
    scroll_step(x, dt, score, 2)
}

} // verus!
