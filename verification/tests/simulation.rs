use rusty_bird::game::Game;
use rusty_bird::params::{FLOOR_Y, MAX_TICK_CS};
use rusty_bird::tracks::Track;

fn running_game() -> Game {
    let mut g = Game::new();
    g.running = true;
    g.first_launch = false;
    g
}

fn far_track(x: i64) -> Track {
    Track { x, lower_y: -100_000_000, upper_y: 350_000_000 }
}

#[test]
fn end_to_end_one_second_tick() {
    // Entity at y=0, v=0, running; one tick of 1.0 s: v becomes -39.24
    // units/s and y becomes -19.62 units, with no clamp and no signal.
    let mut g = running_game();
    let ev = g.tick(100, false);
    assert_eq!(g.bird.y, -19_620_000);
    assert_eq!(g.bird.vel, -392_400);
    assert!(!ev.game_over);
    assert_eq!(ev.points, 0);
    assert_eq!(g.score, 0);
    assert!(g.running);
    // The first track moved from 300 to 100 units at speed 200 units/s.
    assert_eq!(g.tracks[0].x, 100_000_000);
}

#[test]
fn impulse_fast_when_rising() {
    // Velocity 3.0 units/s is above the 2.0 threshold: the action sets it
    // to exactly 12 units/s.
    let mut g = running_game();
    g.bird.vel = 30_000;
    let ev = g.tick(0, true);
    assert_eq!(g.bird.vel, 120_000);
    assert!(ev.impulse);
}

#[test]
fn impulse_slow_when_falling() {
    // Velocity 1.0 units/s is at most the threshold: the action sets it
    // to exactly 8 units/s.
    let mut g = running_game();
    g.bird.vel = 10_000;
    g.tick(0, true);
    assert_eq!(g.bird.vel, 80_000);
}

#[test]
fn impulse_noop_at_ceiling() {
    // At half the window height the action no longer lifts the entity.
    let mut g = running_game();
    g.bird.y = 256_000_000;
    g.bird.vel = 0;
    let ev = g.tick(0, true);
    assert_eq!(g.bird.vel, 0);
    // The wing event still fires: the action was taken during play.
    assert!(ev.impulse);
}

#[test]
fn first_launch_gate() {
    // Starting fresh, one action only dismisses the prompt; the second
    // action starts the run with score 0 and the entity reset.
    let mut g = Game::new();
    assert!(!g.running);
    assert!(g.first_launch);
    g.tick(0, true);
    assert!(!g.running);
    assert!(!g.first_launch);
    g.tick(0, true);
    assert!(g.running);
    assert_eq!(g.score, 0);
    assert_eq!(g.bird.y, 0);
    assert_eq!(g.bird.vel, 0);
    assert_eq!(g.tracks[0].x, 300_000_000);
    assert_eq!(g.tracks[4].x, 1_100_000_000);
}

#[test]
fn score_increments_on_crossing() {
    // A track whose x goes from positive to non-positive in a tick earns
    // exactly one point.
    let mut g = running_game();
    g.bird.y = 200_000_000;  // out of the way of the crossing track
    g.tracks[0] = far_track(100_000_000);
    let ev = g.tick(100, false);
    assert_eq!(ev.points, 1);
    assert_eq!(g.score, 1);
    assert_eq!(g.tracks[0].x, -100_000_000);
}

#[test]
fn recycle_through_tick_randomizes_offset() {
    // A track pushed past -500 units is respawned at exactly 500 units in
    // the same tick, with a randomized lower y in [-300, -26) units and
    // the 450-unit gap preserved at score 0.
    let mut g = running_game();
    g.tracks[0] = far_track(-499_000_000);
    g.tick(1, false);
    assert_eq!(g.tracks[0].x, 500_000_000);
    assert!(g.tracks[0].lower_y >= -300_000_000);
    assert!(g.tracks[0].lower_y < -25_000_000);
    assert_eq!(g.tracks[0].upper_y - g.tracks[0].lower_y, 450_000_000);
}

#[test]
fn collision_raises_game_over() {
    // The entity overlapping a lower box before the tracks move raises
    // the game-over signal and stops the run in the same tick.
    let mut g = running_game();
    g.tracks[0] = far_track(0);
    let ev = g.tick(0, false);
    assert!(ev.game_over);
    assert!(!g.running);
}

#[test]
fn floor_clamp_fires_game_over_once() {
    // With no action, the entity falls, is clamped to exactly the floor
    // on the crossing tick, and the signal fires on that tick alone:
    // afterwards the game is stopped and nothing moves again.
    let mut g = running_game();
    for i in 0..5 {
        g.tracks[i] = far_track(1_100_000_000);
    }
    let mut game_overs = 0;
    for _ in 0..40 {
        let ev = g.tick(10, false);
        assert!(g.bird.y >= FLOOR_Y);
        if ev.game_over {
            game_overs += 1;
        }
    }
    assert_eq!(game_overs, 1);
    assert!(!g.running);
    assert_eq!(g.bird.y, FLOOR_Y);
}

#[test]
fn score_monotonic_while_running() {
    // Across many random ticks the score never decreases while running.
    let mut g = running_game();
    let mut last = g.score;
    for _ in 0..200 {
        if !g.running {
            break;
        }
        g.tick(5, false);
        assert!(g.score >= last);
        last = g.score;
    }
}

#[test]
fn frozen_while_not_running() {
    // A stopped game without an action changes nothing at all.
    let mut g = Game::new();
    g.first_launch = false;
    g.score = 7;
    g.bird.y = -50_000_000;
    let ev = g.tick(MAX_TICK_CS, false);
    assert!(!ev.game_over);
    assert_eq!(ev.points, 0);
    assert_eq!(g.score, 7);
    assert_eq!(g.bird.y, -50_000_000);
    assert_eq!(g.tracks[0].x, 300_000_000);
}

#[test]
fn restart_resets_after_game_over() {
    // After a game over, one action restarts: running, score 0, entity
    // and tracks back at their defaults.
    let mut g = running_game();
    g.score = 42;
    g.tracks[0] = far_track(0);
    g.tick(0, false);
    assert!(!g.running);
    g.tick(0, true);
    assert!(g.running);
    assert_eq!(g.score, 0);
    assert_eq!(g.bird.y, 0);
    assert_eq!(g.bird.vel, 0);
    assert_eq!(g.bird.rotation, 0);
    assert_eq!(g.tracks[1].x, 500_000_000);
}
