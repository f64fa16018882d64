//! The controlled entity and its physics integrator: semi-implicit Euler
//! integration under constant gravity, a clamp at the floor that raises the
//! game-over signal, and the non-linear upward impulse of the player action.

use vstd::prelude::*;

use crate::params::{
    CEILING_Y, FLOOR_Y, GRAVITY, HALF_GRAVITY, IMPULSE_FAST, IMPULSE_SLOW, IMPULSE_THRESHOLD,
    MAX_TICK_CS, VEL_SAT, Y_SAT,
};

verus! {

/// The controlled entity: its x is fixed at the origin; y and the vertical
/// velocity evolve each tick; the rotation is display-only, derived from
/// the velocity.
#[derive(Clone, Copy, PartialEq, Eq, Structural, Debug)]
pub struct Bird {
    pub y: i64,
    pub vel: i64,
    pub rotation: i64,
}

/// Mathematical model of the entity, over unbounded integers.
#[verifier::ext_equal]
pub struct BirdV {
    pub y: int,
    pub vel: int,
    pub rotation: int,
}

impl View for Bird {
    type V = BirdV;

    open spec fn view(&self) -> BirdV {
        BirdV { y: self.y as int, vel: self.vel as int, rotation: self.rotation as int }
    }
}

impl BirdV {
    /// Well-formedness: y sits between the floor and the saturation bound;
    /// the velocity never exceeds the strongest impulse (gravity only pulls
    /// it down from there) and saturates far below; the rotation is the
    /// display value of some past non-negative velocity.
    pub open spec fn wf(self) -> bool {
        &&& FLOOR_Y <= self.y <= Y_SAT
        &&& -VEL_SAT <= self.vel <= IMPULSE_FAST
        &&& 0 <= self.rotation <= 2 * IMPULSE_FAST
    }

    /// The entity at its start-of-run defaults: at the origin, at rest.
    pub open spec fn initial() -> BirdV {
        BirdV { y: 0, vel: 0, rotation: 0 }
    }
}

/// Where the integrator would put y after `dt` centiseconds, before the
/// floor clamp: y + v*dt + (G/2)*dt^2 in micro-units.
pub open spec fn raw_y_after(b: BirdV, dt: int) -> int {
    b.y + b.vel * dt + HALF_GRAVITY * (dt * dt)
}

/// The velocity after `dt` centiseconds: v + G*dt, saturated far below play.
pub open spec fn vel_after(b: BirdV, dt: int) -> int {
    let v = b.vel + GRAVITY * dt;
    if v < -VEL_SAT {
        -VEL_SAT
    } else {
        v
    }
}

/// The physics step of this tick crosses the floor, raising the game-over
/// signal.
pub open spec fn hits_floor(b: BirdV, dt: int) -> bool {
    raw_y_after(b, dt) < FLOOR_Y
}

/// The display rotation derived from a velocity: max(v, 0) / 50 radians,
/// expressed in micro-radians, which in these fixed-point scales is
/// exactly twice the velocity value.
pub open spec fn rotation_of(vel: int) -> int {
    if vel > 0 {
        2 * vel
    } else {
        0
    }
}

/// The entity after one physics step of `dt` centiseconds: the integrated
/// y clamped to the floor (and saturated far above play), the new velocity,
/// and the rotation derived from the new velocity.
pub open spec fn bird_after(b: BirdV, dt: int) -> BirdV {
    let raw = raw_y_after(b, dt);
    let y = if raw < FLOOR_Y {
        FLOOR_Y as int
    } else if raw > Y_SAT {
        Y_SAT as int
    } else {
        raw
    };
    let vel = vel_after(b, dt);
    BirdV { y, vel, rotation: rotation_of(vel) }
}

/// The entity after the player action while the game runs: below the
/// ceiling the velocity becomes 12 units/s if it was above 2 units/s and
/// 8 units/s otherwise; at or above the ceiling the action is a no-op.
pub open spec fn bird_after_impulse(b: BirdV) -> BirdV {
    if b.y < CEILING_Y {
        let vel = if b.vel > IMPULSE_THRESHOLD {
            IMPULSE_FAST as int
        } else {
            IMPULSE_SLOW as int
        };
        BirdV { y: b.y, vel, rotation: b.rotation }
    } else {
        b
    }
}

/// One physics step: advances (y, vel, rotation) by `dt` centiseconds and
/// reports whether this step crossed the floor, which raises the game-over
/// signal for the tick.
pub fn step_bird(b: &mut Bird, dt: i64) -> (hit_floor: bool)
    requires
        old(b)@.wf(),
        0 <= dt <= MAX_TICK_CS,
    ensures
        final(b)@ == bird_after(old(b)@, dt as int),
        hit_floor == hits_floor(old(b)@, dt as int),
        final(b)@.wf(),
{
    proof {
        let v0 = b@.vel;
        let t = dt as int;
        assert(-VEL_SAT * MAX_TICK_CS <= v0 * t <= IMPULSE_FAST * MAX_TICK_CS)
            by (nonlinear_arith)
            requires
                -VEL_SAT <= v0 <= IMPULSE_FAST,
                0 <= t <= MAX_TICK_CS,
        ;
        assert(0 <= t * t <= MAX_TICK_CS * MAX_TICK_CS) by (nonlinear_arith)
            requires
                0 <= t <= MAX_TICK_CS,
        ;
    }
    let dy = b.vel * dt + HALF_GRAVITY * (dt * dt);
    let raw = b.y + dy;
    let hit_floor = raw < FLOOR_Y;
    b.y = if raw < FLOOR_Y {
        FLOOR_Y
    } else if raw > Y_SAT {
        Y_SAT
    } else {
        raw
    };
    let vel_raw = b.vel + GRAVITY * dt;
    b.vel = if vel_raw < -VEL_SAT {
        -VEL_SAT
    } else {
        vel_raw
    };
    b.rotation = if b.vel > 0 {
        2 * b.vel
    } else {
        0
    };
    hit_floor
}

/// The player action while the game runs: sets the velocity to 12 units/s
/// if it is above 2 units/s and to 8 units/s otherwise, but only while the
/// entity is below the ceiling at half the window height.
pub fn apply_impulse(b: &mut Bird)
    requires
        old(b)@.wf(),
    ensures
        final(b)@ == bird_after_impulse(old(b)@),
        final(b)@.wf(),
{
    if b.y < CEILING_Y {
        if b.vel > IMPULSE_THRESHOLD {
            b.vel = IMPULSE_FAST;
        } else {
            b.vel = IMPULSE_SLOW;
        }
    }
}

} // verus!
