//! The game state machine and the per-tick control flow. A tick advances
//! the physics integrator and the obstacle cycle (only while running),
//! consumes any game-over signal they raised, and finally processes the
//! edge-triggered player action, which applies an upward impulse while
//! running, dismisses the launch prompt on the very first action ever, and
//! otherwise restarts the run.

use vstd::prelude::*;

use crate::bird::{Bird, BirdV, bird_after, bird_after_impulse, hits_floor, step_bird};
use crate::params::{MAX_TICK_CS, TRACK_COUNT};
use crate::rng::random_offset;
use crate::score::{add_points, score_plus};
use crate::tracks::{
    Track, TrackV, any_track_hits, count_crossed, initial_tracks, make_tracks, offsets_ok,
    step_tracks, tracks_after, tracks_view,
};

verus! {

/// The whole simulation state.
pub struct Game {
    pub bird: Bird,
    pub tracks: Vec<Track>,
    pub score: u32,
    pub running: bool,
    pub first_launch: bool,
}

/// Mathematical model of the simulation state.
#[verifier::ext_equal]
pub struct GameV {
    pub bird: BirdV,
    pub tracks: Seq<TrackV>,
    pub score: int,
    pub running: bool,
    pub first_launch: bool,
}

impl View for Game {
    type V = GameV;

    open spec fn view(&self) -> GameV {
        GameV {
            bird: self.bird@,
            tracks: tracks_view(self.tracks@),
            score: self.score as int,
            running: self.running,
            first_launch: self.first_launch,
        }
    }
}

impl GameV {
    /// Well-formedness at a tick boundary: the entity and all five tracks
    /// are well-formed, the score fits its counter, and while the launch
    /// prompt has never been dismissed the game cannot be running.
    pub open spec fn wf(self) -> bool {
        &&& self.bird.wf()
        &&& self.tracks.len() == TRACK_COUNT
        &&& forall|i: int| 0 <= i < self.tracks.len() ==> (#[trigger] self.tracks[i]).wf()
        &&& 0 <= self.score <= u32::MAX
        &&& (self.first_launch ==> !self.running)
    }

    /// The state at startup: not running, first launch, entity at its
    /// defaults, tracks in the initial layout, score zero.
    pub open spec fn initial() -> GameV {
        GameV {
            bird: BirdV::initial(),
            tracks: initial_tracks(),
            score: 0,
            running: false,
            first_launch: true,
        }
    }

    /// The state right after a restart: like startup, but running and with
    /// the launch prompt long dismissed.
    pub open spec fn restarted() -> GameV {
        GameV {
            bird: BirdV::initial(),
            tracks: initial_tracks(),
            score: 0,
            running: true,
            first_launch: false,
        }
    }
}

/// The game-over signal of a tick: while running, the physics step crossed
/// the floor or the entity overlapped a track before the tracks moved.
pub open spec fn tick_signal(g: GameV, dt: int) -> bool {
    g.running && (hits_floor(g.bird, dt) || any_track_hits(bird_after(g.bird, dt), g.tracks))
}

/// The points earned in a tick: the number of tracks that crossed the
/// entity's x-coordinate, zero while not running.
pub open spec fn tick_points(g: GameV, dt: int) -> int {
    if g.running {
        count_crossed(g.tracks, dt, g.score)
    } else {
        0
    }
}

/// The state after the simulation phase of a tick and the consumption of
/// its game-over signal, before the player action is processed. While not
/// running, nothing moves.
pub open spec fn after_sim(g: GameV, dt: int, offs: Seq<i64>) -> GameV {
    if g.running {
        GameV {
            bird: bird_after(g.bird, dt),
            tracks: tracks_after(g.tracks, dt, g.score, offs),
            score: score_plus(g.score, count_crossed(g.tracks, dt, g.score)),
            running: !tick_signal(g, dt),
            first_launch: g.first_launch,
        }
    } else {
        g
    }
}

/// The player action: an upward impulse while running; the very first
/// action ever only dismisses the launch prompt and does not start the
/// run; any later action while not running restarts the game.
pub open spec fn after_action(g: GameV) -> GameV {
    if g.running {
        GameV { bird: bird_after_impulse(g.bird), ..g }
    } else if g.first_launch {
        GameV { first_launch: false, ..g }
    } else {
        GameV::restarted()
    }
}

/// One whole tick: the simulation phase, then the action, if one fired.
pub open spec fn tick_rel(g: GameV, dt: int, action: bool, offs: Seq<i64>) -> GameV {
    let mid = after_sim(g, dt, offs);
    if action {
        after_action(mid)
    } else {
        mid
    }
}

/// The discrete events a tick hands to the external collaborators: the
/// game-over signal (visuals and audio), the points scored (audio), and
/// whether the action was taken during play (wing audio).
#[derive(Clone, Copy, PartialEq, Eq, Structural, Debug)]
pub struct TickEvents {
    pub game_over: bool,
    pub points: u32,
    pub impulse: bool,
}

impl Game {
    /// A fresh game at startup.
    pub fn new() -> (g: Game)
        ensures
            g@ == GameV::initial(),
            g@.wf(),
    {
        let g = Game {
            bird: Bird { y: 0, vel: 0, rotation: 0 },
            tracks: make_tracks(),
            score: 0,
            running: false,
            first_launch: true,
        };
        proof {
            assert(g@ =~= GameV::initial());
        }
        g
    }

    /// The game is in active play.
    pub fn is_active(&self) -> (r: bool)
        ensures
            r == self@.running,
    {
        self.running
    }

    /// Processes one edge-triggered player action.
    pub fn handle_action(&mut self)
        requires
            old(self)@.wf(),
        ensures
            final(self)@ == after_action(old(self)@),
            final(self)@.wf(),
    {
        if self.running {
            crate::bird::apply_impulse(&mut self.bird);
        } else if self.first_launch {
            self.first_launch = false;
        } else {
            self.bird = Bird { y: 0, vel: 0, rotation: 0 };
            self.tracks = make_tracks();
            self.score = 0;
            self.running = true;
        }
        proof {
            assert(self@ =~= after_action(old(self)@));
        }
    }

    /// One tick with the randomized recycle offsets passed in: advances
    /// physics and obstacles while running, consumes the game-over signal,
    /// then processes the action. The whole transition is the pure
    /// function `tick_rel` of the previous state.
    pub fn tick_with_offsets(&mut self, dt: i64, action: bool, offsets: &Vec<i64>) -> (ev:
        TickEvents)
        requires
            old(self)@.wf(),
            0 <= dt <= MAX_TICK_CS,
            offsets_ok(offsets@),
        ensures
            final(self)@ == tick_rel(old(self)@, dt as int, action, offsets@),
            final(self)@.wf(),
            ev.game_over == tick_signal(old(self)@, dt as int),
            ev.points == tick_points(old(self)@, dt as int),
            ev.impulse == (action && old(self)@.running && !tick_signal(old(self)@, dt as int)),
    {
        let mut ev = TickEvents { game_over: false, points: 0, impulse: false };
        if self.running {
            let hit_floor = step_bird(&mut self.bird, dt);
            proof {
                assert forall|i: int|
                    0 <= i < self.tracks@.len() implies (#[trigger] self.tracks@[i])@.wf() by {
                    assert(tracks_view(self.tracks@)[i] == self.tracks@[i]@);
                }
            }
            let (collided, points) = step_tracks(&mut self.tracks, &self.bird, dt, self.score,
                offsets);
            self.score = add_points(self.score, points);
            let signal = hit_floor || collided;
            if signal {
                self.running = false;
            }
            ev.game_over = signal;
            ev.points = points;
        }
        proof {
            assert(self@ =~= after_sim(old(self)@, dt as int, offsets@));
        }
        if action {
            ev.impulse = self.running;
            self.handle_action();
        }
        proof {
            assert(self@ =~= tick_rel(old(self)@, dt as int, action, offsets@));
        }
        ev
    }

    /// One tick, drawing the five randomized recycle offsets from the
    /// game's random source. Whatever the draw, the new state is
    /// `tick_rel` of the old one for some in-range offsets.
    pub fn tick(&mut self, dt: i64, action: bool) -> (ev: TickEvents)
        requires
            old(self)@.wf(),
            0 <= dt <= MAX_TICK_CS,
        ensures
            exists|offs: Seq<i64>|
                offsets_ok(offs) && final(self)@ == #[trigger] tick_rel(old(self)@, dt as int,
                    action, offs),
            final(self)@.wf(),
            ev.game_over == tick_signal(old(self)@, dt as int),
            ev.points == tick_points(old(self)@, dt as int),
            ev.impulse == (action && old(self)@.running && !tick_signal(old(self)@, dt as int)),
    {
        let mut offsets: Vec<i64> = Vec::new();
        offsets.push(random_offset());
        offsets.push(random_offset());
        offsets.push(random_offset());
        offsets.push(random_offset());
        offsets.push(random_offset());
        proof {
            assert(offsets_ok(offsets@));
        }
        self.tick_with_offsets(dt, action, &offsets)
    }
}

} // verus!
