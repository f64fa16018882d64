//! The obstacle cycle: five paired obstacle tracks scroll leftward at a
//! score-dependent speed, are collision-tested against the entity before
//! they move, recycle to the right edge with a randomized vertical offset
//! once fully off-screen, and earn a point whenever one crosses the
//! entity's x-coordinate.

use vstd::prelude::*;

use crate::bird::{Bird, BirdV};
use crate::collision::{boxes_overlap, check_collision};
use crate::params::{
    BIRD_HALF_H, BIRD_HALF_W, FIRST_TRACK_X, LOWER_PIPE_BASE_Y, MAX_TICK_CS, OFFSET_MAX,
    OFFSET_MIN, PIPE_GAP_OFFSET, PIPE_HALF_H, PIPE_HALF_W, RECYCLE_X, RESPAWN_X, SCALE,
    SPEED_BASE, TRACK_COUNT, TRACK_SPACING, VEL_SCALE, cap100, pipe_shift,
};

verus! {

/// One obstacle track: a lower and an upper box sharing a single x, each
/// 48 x 316, with the vertical gap between them fixed at recycle time.
#[derive(Clone, Copy, PartialEq, Eq, Structural, Debug)]
pub struct Track {
    pub x: i64,
    pub lower_y: i64,
    pub upper_y: i64,
}

/// Mathematical model of a track, over unbounded integers.
#[verifier::ext_equal]
pub struct TrackV {
    pub x: int,
    pub lower_y: int,
    pub upper_y: int,
}

impl View for Track {
    type V = TrackV;

    open spec fn view(&self) -> TrackV {
        TrackV { x: self.x as int, lower_y: self.lower_y as int, upper_y: self.upper_y as int }
    }
}

impl TrackV {
    /// Well-formedness at a tick boundary: x lies strictly right of the
    /// recycle threshold and no further right than the last initial slot;
    /// both box y's lie in the range the base offsets and the randomized
    /// recycle offsets can produce; and the gap between the boxes is the
    /// fixed 450 units narrowed by at most the capped score.
    pub open spec fn wf(self) -> bool {
        &&& RECYCLE_X < self.x <= 1_100_000_000
        &&& -300_000_000 <= self.lower_y <= -26_000_000
        &&& 50_000_000 <= self.upper_y <= 424_000_000
        &&& 350_000_000 <= self.upper_y - self.lower_y <= 450_000_000
    }
}

/// The view of a vector of tracks, as a sequence of track models.
pub open spec fn tracks_view(ts: Seq<Track>) -> Seq<TrackV> {
    ts.map_values(|t: Track| t@)
}

/// The i-th track of the initial (and restart) layout: evenly spaced
/// x-coordinates 300, 500, 700, 900, 1100, with the base box y's.
pub open spec fn initial_track(i: int) -> TrackV {
    TrackV {
        x: FIRST_TRACK_X + i * TRACK_SPACING,
        lower_y: LOWER_PIPE_BASE_Y as int,
        upper_y: LOWER_PIPE_BASE_Y + PIPE_GAP_OFFSET,
    }
}

/// The initial (and restart) layout of the five tracks.
pub open spec fn initial_tracks() -> Seq<TrackV> {
    Seq::new(TRACK_COUNT as nat, |i: int| initial_track(i))
}

/// The entity overlaps one of the track's two boxes. The entity's x is
/// fixed at the origin.
pub open spec fn track_hits(b: BirdV, t: TrackV) -> bool {
    ||| boxes_overlap(0, b.y, BIRD_HALF_W as int, BIRD_HALF_H as int, t.x, t.lower_y,
        PIPE_HALF_W as int, PIPE_HALF_H as int)
    ||| boxes_overlap(0, b.y, BIRD_HALF_W as int, BIRD_HALF_H as int, t.x, t.upper_y,
        PIPE_HALF_W as int, PIPE_HALF_H as int)
}

/// The entity overlaps some track of the sequence.
pub open spec fn any_track_hits(b: BirdV, ts: Seq<TrackV>) -> bool {
    exists|i: int| 0 <= i < ts.len() && track_hits(b, #[trigger] ts[i])
}

/// A track after one tick: shifted left by the score-dependent amount;
/// if that put it at or beyond the recycle threshold, teleported to the
/// right edge with the randomized offset `off` added to both box y's and
/// the gap narrowed by the capped score.
pub open spec fn track_after(t: TrackV, dt: int, score: int, off: int) -> TrackV {
    let x1 = t.x - pipe_shift(dt, score);
    if x1 <= RECYCLE_X {
        TrackV {
            x: RESPAWN_X as int,
            lower_y: LOWER_PIPE_BASE_Y + off * SCALE,
            upper_y: LOWER_PIPE_BASE_Y + PIPE_GAP_OFFSET - cap100(score) * SCALE + off * SCALE,
        }
    } else {
        TrackV { x: x1, lower_y: t.lower_y, upper_y: t.upper_y }
    }
}

/// The track scores this tick: its x crosses from positive to
/// non-positive under the shift.
pub open spec fn track_crossed(t: TrackV, dt: int, score: int) -> bool {
    t.x > 0 && t.x - pipe_shift(dt, score) <= 0
}

/// All five tracks after one tick; every track moves by the same shift,
/// computed from the score at the start of the tick.
pub open spec fn tracks_after(ts: Seq<TrackV>, dt: int, score: int, offs: Seq<i64>) -> Seq<
    TrackV,
> {
    Seq::new(ts.len(), |i: int| track_after(ts[i], dt, score, offs[i] as int))
}

/// How many tracks score this tick.
pub open spec fn count_crossed(ts: Seq<TrackV>, dt: int, score: int) -> int
    decreases ts.len(),
{
    if ts.len() == 0 {
        0
    } else {
        count_crossed(ts.drop_last(), dt, score) + if track_crossed(ts.last(), dt, score) {
            1int
        } else {
            0int
        }
    }
}

/// The randomized recycle offsets are five values in [-200, 75).
pub open spec fn offsets_ok(offs: Seq<i64>) -> bool {
    &&& offs.len() == TRACK_COUNT
    &&& forall|i: int| 0 <= i < offs.len() ==> OFFSET_MIN <= #[trigger] offs[i] < OFFSET_MAX
}

/// Boundary-inclusive collision test between the entity and both boxes of
/// one track.
pub fn track_collides(b: &Bird, t: &Track) -> (r: bool)
    requires
        b@.wf(),
        t@.wf(),
    ensures
        r == track_hits(b@, t@),
{
    let lower = check_collision(0, b.y, BIRD_HALF_W, BIRD_HALF_H, t.x, t.lower_y, PIPE_HALF_W,
        PIPE_HALF_H);
    let upper = check_collision(0, b.y, BIRD_HALF_W, BIRD_HALF_H, t.x, t.upper_y, PIPE_HALF_W,
        PIPE_HALF_H);
    lower || upper
}

/// Advances one track by `dt` centiseconds at the given start-of-tick
/// score, recycling it with the randomized offset `off` if it moved fully
/// off-screen, and reports whether it scored.
pub fn step_track(t: &mut Track, dt: i64, score: u32, off: i64) -> (scored: bool)
    requires
        old(t)@.wf(),
        0 <= dt <= MAX_TICK_CS,
        OFFSET_MIN <= off < OFFSET_MAX,
    ensures
        final(t)@ == track_after(old(t)@, dt as int, score as int, off as int),
        scored == track_crossed(old(t)@, dt as int, score as int),
        final(t)@.wf(),
{
    let m = crate::params::score_speed_term(score);
    let term = 2 * (SPEED_BASE + m as i64) * VEL_SCALE;
    proof {
        let tm = term as int;
        let d = dt as int;
        assert(0 <= tm * d <= 4_000_000 * MAX_TICK_CS) by (nonlinear_arith)
            requires
                0 <= tm <= 4_000_000,
                0 <= d <= MAX_TICK_CS,
        ;
    }
    let shift = term * dt;
    let x1 = t.x - shift;
    let scored = t.x > 0 && x1 <= 0;
    if x1 <= RECYCLE_X {
        t.x = RESPAWN_X;
        t.lower_y = LOWER_PIPE_BASE_Y + off * SCALE;
        t.upper_y = LOWER_PIPE_BASE_Y + PIPE_GAP_OFFSET - (m as i64) * SCALE + off * SCALE;
    } else {
        t.x = x1;
    }
    scored
}

/// Builds the five tracks of the initial layout.
pub fn make_tracks() -> (v: Vec<Track>)
    ensures
        v@.len() == TRACK_COUNT,
        tracks_view(v@) == initial_tracks(),
        forall|i: int| 0 <= i < v@.len() ==> (#[trigger] v@[i])@.wf(),
{
    let mut v: Vec<Track> = Vec::new();
    v.push(Track { x: 300_000_000, lower_y: -100_000_000, upper_y: 350_000_000 });
    v.push(Track { x: 500_000_000, lower_y: -100_000_000, upper_y: 350_000_000 });
    v.push(Track { x: 700_000_000, lower_y: -100_000_000, upper_y: 350_000_000 });
    v.push(Track { x: 900_000_000, lower_y: -100_000_000, upper_y: 350_000_000 });
    v.push(Track { x: 1_100_000_000, lower_y: -100_000_000, upper_y: 350_000_000 });
    proof {
        assert(tracks_view(v@) =~= initial_tracks());
        assert forall|i: int| 0 <= i < v@.len() implies (#[trigger] v@[i])@.wf() by {
            assert(tracks_view(v@)[i] == v@[i]@);
        }
    }
    v
}

/// Advances all five tracks by one tick: tests each against the entity
/// before it moves, shifts every track by the same score-dependent amount,
/// recycles those that moved off-screen with their randomized offsets, and
/// returns whether any track collided and how many scored.
pub fn step_tracks(tracks: &mut Vec<Track>, b: &Bird, dt: i64, score: u32, offsets: &Vec<i64>) ->
    (r: (bool, u32))
    requires
        old(tracks)@.len() == TRACK_COUNT,
        forall|i: int| 0 <= i < old(tracks)@.len() ==> (#[trigger] old(tracks)@[i])@.wf(),
        b@.wf(),
        0 <= dt <= MAX_TICK_CS,
        offsets_ok(offsets@),
    ensures
        final(tracks)@.len() == TRACK_COUNT,
        tracks_view(final(tracks)@) == tracks_after(tracks_view(old(tracks)@), dt as int,
            score as int, offsets@),
        forall|i: int| 0 <= i < final(tracks)@.len() ==> (#[trigger] final(tracks)@[i])@.wf(),
        r.0 == any_track_hits(b@, tracks_view(old(tracks)@)),
        r.1 == count_crossed(tracks_view(old(tracks)@), dt as int, score as int),
        r.1 <= TRACK_COUNT,
{
    let ghost ts0: Seq<Track> = tracks@;
    let mut i: usize = 0;
    let mut collided = false;
    let mut points: u32 = 0;
    while i < TRACK_COUNT
        invariant
            0 <= i <= TRACK_COUNT,
            tracks@.len() == TRACK_COUNT,
            ts0.len() == TRACK_COUNT,
            forall|j: int| 0 <= j < ts0.len() ==> (#[trigger] ts0[j])@.wf(),
            b@.wf(),
            0 <= dt <= MAX_TICK_CS,
            offsets_ok(offsets@),
            forall|j: int| i <= j < TRACK_COUNT ==> #[trigger] tracks@[j] == ts0[j],
            forall|j: int|
                0 <= j < i ==> (#[trigger] tracks@[j])@ == track_after(ts0[j]@, dt as int,
                    score as int, offsets@[j] as int),
            forall|j: int| 0 <= j < i ==> (#[trigger] tracks@[j])@.wf(),
            collided == exists|j: int| 0 <= j < i && track_hits(b@, (#[trigger] ts0[j])@),
            points == count_crossed(tracks_view(ts0).take(i as int), dt as int, score as int),
            points <= i,
        decreases TRACK_COUNT - i,
    {
        let t = tracks[i];
        if track_collides(b, &t) {
            collided = true;
        }
        let mut t2 = t;
        let scored = step_track(&mut t2, dt, score, offsets[i]);
        tracks.set(i, t2);
        if scored {
            points = points + 1;
        }
        proof {
            let pre = tracks_view(ts0).take(i as int);
            let post = tracks_view(ts0).take(i + 1);
            assert(post.drop_last() =~= pre);
            assert(post.last() == ts0[i as int]@);
        }
        i = i + 1;
    }
    proof {
        assert(tracks_view(ts0).take(TRACK_COUNT as int) =~= tracks_view(ts0));
        assert(tracks_view(tracks@) =~= tracks_after(tracks_view(ts0), dt as int, score as int,
            offsets@));
        let tv = tracks_view(ts0);
        if collided {
            let j = choose|j: int| 0 <= j < TRACK_COUNT && track_hits(b@, ts0[j]@);
            assert(track_hits(b@, tv[j]));
        } else {
            assert forall|j: int| 0 <= j < tv.len() implies !track_hits(b@, #[trigger] tv[j]) by {
                assert(tv[j] == ts0[j]@);
            }
        }
    }
    (collided, points)
}

} // verus!
