//! The general laws of the simulation, stated over the pure tick relation
//! and the per-component transition functions, and proved from what the
//! executable functions' contracts state.

use vstd::prelude::*;

use crate::bird::hits_floor;
use crate::game::{GameV, after_action, after_sim, tick_rel, tick_signal};
use crate::params::{
    FLOOR_Y, MAX_TICK_CS, OFFSET_MAX, OFFSET_MIN, RECYCLE_X, RESPAWN_X, SPEED_BASE, VEL_SCALE,
    cap100, pipe_shift,
};
use crate::scroll::scroll_after;
use crate::tracks::{
    TrackV, count_crossed, offsets_ok, track_after, track_crossed, tracks_after,
};

verus! {

/// The shift of a tick is never negative: tracks only move left.
pub proof fn lemma_pipe_shift_nonneg(dt: int, score: int)
    requires
        0 <= dt <= MAX_TICK_CS,
        0 <= score,
    ensures
        0 <= pipe_shift(dt, score) <= 4_000_000 * MAX_TICK_CS,
{
    let tm = 2 * (SPEED_BASE + cap100(score)) * VEL_SCALE;
    assert(0 <= tm * dt <= 4_000_000 * MAX_TICK_CS) by (nonlinear_arith)
        requires
            0 <= tm <= 4_000_000,
            0 <= dt <= MAX_TICK_CS,
    ;
}

/// A tick scores at least zero and at most one point per track.
pub proof fn lemma_count_crossed_bounds(ts: Seq<TrackV>, dt: int, score: int)
    ensures
        0 <= count_crossed(ts, dt, score) <= ts.len(),
    decreases ts.len(),
{
    if ts.len() > 0 {
        lemma_count_crossed_bounds(ts.drop_last(), dt, score);
    }
}

/// Floor clamp: whatever tick runs, the entity never ends it below the
/// floor; the tick whose physics step crosses the floor clamps y to
/// exactly the floor and raises the game-over signal, which ends the run
/// in the same tick; and a tick of a game that is not running (with no
/// action) moves nothing and raises no signal, so the signal cannot fire
/// again while the entity rests at the floor.
pub proof fn lemma_floor_clamp(g: GameV, dt: int, offs: Seq<i64>)
    requires
        g.wf(),
        0 <= dt <= MAX_TICK_CS,
        offsets_ok(offs),
    ensures
        tick_rel(g, dt, false, offs).bird.y >= FLOOR_Y,
        g.running && hits_floor(g.bird, dt) ==> tick_rel(g, dt, false, offs).bird.y == FLOOR_Y,
        tick_signal(g, dt) ==> !tick_rel(g, dt, false, offs).running,
        !g.running ==> tick_rel(g, dt, false, offs) == g && !tick_signal(g, dt),
{
}

/// The inputs of one tick: its elapsed time and its randomized recycle
/// offsets.
pub struct TickInput {
    pub dt: int,
    pub offs: Seq<i64>,
}

/// Every tick input of the sequence is admissible.
pub open spec fn inputs_ok(ins: Seq<TickInput>) -> bool {
    forall|i: int|
        0 <= i < ins.len() ==> 0 <= (#[trigger] ins[i]).dt <= MAX_TICK_CS && offsets_ok(
            ins[i].offs)
}

/// The state after running a whole sequence of ticks with no action input.
pub open spec fn run_ticks(g: GameV, ins: Seq<TickInput>) -> GameV
    decreases ins.len(),
{
    if ins.len() == 0 {
        g
    } else {
        run_ticks(tick_rel(g, ins[0].dt, false, ins[0].offs), ins.drop_first())
    }
}

/// How many ticks of an action-free run raise the game-over signal.
pub open spec fn count_signals(g: GameV, ins: Seq<TickInput>) -> int
    decreases ins.len(),
{
    if ins.len() == 0 {
        0
    } else {
        (if tick_signal(g, ins[0].dt) {
            1int
        } else {
            0int
        }) + count_signals(tick_rel(g, ins[0].dt, false, ins[0].offs), ins.drop_first())
    }
}

/// Across any action-free sequence of ticks the game stays well-formed;
/// in particular the entity's y never goes below the floor at any tick
/// boundary of the run.
pub proof fn lemma_run_preserves_wf(g: GameV, ins: Seq<TickInput>)
    requires
        g.wf(),
        inputs_ok(ins),
    ensures
        run_ticks(g, ins).wf(),
        run_ticks(g, ins).bird.y >= FLOOR_Y,
    decreases ins.len(),
{
    if ins.len() > 0 {
        lemma_tick_preserves_wf(g, ins[0].dt, false, ins[0].offs);
        lemma_run_preserves_wf(tick_rel(g, ins[0].dt, false, ins[0].offs), ins.drop_first());
    }
}

/// With no action input the game-over signal fires at most once in any
/// sequence of ticks, and never once the game is stopped: the tick that
/// raises it also stops the run, a stopped game changes nothing, and only
/// an action can start it again.
pub proof fn lemma_signal_fires_at_most_once(g: GameV, ins: Seq<TickInput>)
    ensures
        count_signals(g, ins) <= 1,
        !g.running ==> count_signals(g, ins) == 0 && run_ticks(g, ins) == g,
    decreases ins.len(),
{
    if ins.len() > 0 {
        let next = tick_rel(g, ins[0].dt, false, ins[0].offs);
        lemma_signal_fires_at_most_once(next, ins.drop_first());
    }
}

/// The action phase of this tick ends in a restart: an action fired while
/// the game was not running after the signal was consumed, with the
/// launch prompt already dismissed.
pub open spec fn tick_restarts(g: GameV, dt: int, action: bool) -> bool {
    action && !(g.running && !tick_signal(g, dt)) && !g.first_launch
}

/// Score monotonicity: the score never decreases across a tick of a
/// running game, is frozen entirely while the game is not running, and
/// resets to exactly zero when a restart fires.
pub proof fn lemma_score_monotonic(g: GameV, dt: int, action: bool, offs: Seq<i64>)
    requires
        g.wf(),
        0 <= dt <= MAX_TICK_CS,
        offsets_ok(offs),
    ensures
        tick_restarts(g, dt, action) ==> tick_rel(g, dt, action, offs).score == 0,
        !tick_restarts(g, dt, action) && g.running ==> tick_rel(g, dt, action, offs).score
            >= g.score,
        !tick_restarts(g, dt, action) && !g.running ==> tick_rel(g, dt, action, offs).score
            == g.score,
{
    lemma_count_crossed_bounds(g.tracks, dt, g.score);
}

/// Score cap independence: every speed formula reads min(score, 100), so
/// any two scores at or above 100 drive the obstacle cycle and the scroll
/// layers identically.
pub proof fn lemma_score_cap_independence(
    s1: int,
    s2: int,
    t: TrackV,
    ts: Seq<TrackV>,
    x: int,
    dt: int,
    off: int,
    offs: Seq<i64>,
    mul: int,
)
    requires
        s1 >= 100,
        s2 >= 100,
    ensures
        pipe_shift(dt, s1) == pipe_shift(dt, s2),
        track_after(t, dt, s1, off) == track_after(t, dt, s2, off),
        track_crossed(t, dt, s1) == track_crossed(t, dt, s2),
        tracks_after(ts, dt, s1, offs) == tracks_after(ts, dt, s2, offs),
        count_crossed(ts, dt, s1) == count_crossed(ts, dt, s2),
        scroll_after(x, dt, s1, mul) == scroll_after(x, dt, s2, mul),
{
    assert(cap100(s1) == cap100(s2));
    assert(tracks_after(ts, dt, s1, offs) =~= tracks_after(ts, dt, s2, offs));
    lemma_count_crossed_equal(ts, dt, s1, s2);
}

/// Helper for the cap independence of the per-tick point count.
proof fn lemma_count_crossed_equal(ts: Seq<TrackV>, dt: int, s1: int, s2: int)
    requires
        cap100(s1) == cap100(s2),
    ensures
        count_crossed(ts, dt, s1) == count_crossed(ts, dt, s2),
    decreases ts.len(),
{
    if ts.len() > 0 {
        lemma_count_crossed_equal(ts.drop_last(), dt, s1, s2);
    }
}

/// Recycle invariant: a track whose shift takes it to or past -500 units
/// is set to exactly 500 units in the same tick, and no track is ever at
/// or below -500 units at the start of the next tick.
pub proof fn lemma_recycle(t: TrackV, dt: int, score: int, off: int)
    requires
        t.wf(),
        0 <= dt <= MAX_TICK_CS,
        0 <= score,
        OFFSET_MIN <= off < OFFSET_MAX,
    ensures
        t.x - pipe_shift(dt, score) <= RECYCLE_X ==> track_after(t, dt, score, off).x
            == RESPAWN_X,
        track_after(t, dt, score, off).x > RECYCLE_X,
        track_after(t, dt, score, off).wf(),
{
    lemma_pipe_shift_nonneg(dt, score);
}

/// First-launch gate: from any state that is not running and still shows
/// the launch prompt, one action only dismisses the prompt and does not
/// start the run; the next action then restarts the game: running, score
/// zero, the entity back at the origin at rest, the tracks back in the
/// initial layout.
pub proof fn lemma_first_launch_gate(g: GameV)
    requires
        g.wf(),
        g.first_launch,
        !g.running,
    ensures
        !after_action(g).running,
        !after_action(g).first_launch,
        after_action(after_action(g)) == GameV::restarted(),
{
}

/// The simulation phase of a tick preserves well-formedness; with it,
/// every reachable state of the game is well-formed tick after tick.
pub proof fn lemma_tick_preserves_wf(g: GameV, dt: int, action: bool, offs: Seq<i64>)
    requires
        g.wf(),
        0 <= dt <= MAX_TICK_CS,
        offsets_ok(offs),
    ensures
        tick_rel(g, dt, action, offs).wf(),
{
    let mid = after_sim(g, dt, offs);
    if g.running {
        lemma_count_crossed_bounds(g.tracks, dt, g.score);
        assert forall|i: int| 0 <= i < mid.tracks.len() implies (#[trigger] mid.tracks[i]).wf()
        by {
            lemma_recycle(g.tracks[i], dt, g.score, offs[i] as int);
        }
    }
}

} // verus!
