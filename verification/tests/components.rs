use rusty_bird::anim::{next_frame, AnimTimer};
use rusty_bird::bird::{Bird, apply_impulse, step_bird};
use rusty_bird::collision::check_collision;
use rusty_bird::score::{add_points, score_digits};
use rusty_bird::scroll::{scroll_background, scroll_base};
use rusty_bird::tracks::{Track, step_track, track_collides};

#[test]
fn physics_integration_exact() {
    // One 1.0 s step from rest: y' = 0.5 * -39.24, v' = -39.24.
    let mut b = Bird { y: 0, vel: 0, rotation: 0 };
    let hit = step_bird(&mut b, 100);
    assert!(!hit);
    assert_eq!(b.y, -19_620_000);
    assert_eq!(b.vel, -392_400);
    assert_eq!(b.rotation, 0);
}

#[test]
fn physics_rotation_tracks_upward_speed() {
    // An entity still rising after the step shows rotation max(v, 0)/50
    // radians: 2 micro-radians per velocity unit in these scales.
    let mut b = Bird { y: 0, vel: 120_000, rotation: 0 };
    step_bird(&mut b, 1);
    assert_eq!(b.vel, 120_000 - 3_924);
    assert_eq!(b.rotation, 2 * (120_000 - 3_924));
}

#[test]
fn physics_floor_clamp() {
    // A step that would cross the floor clamps y to exactly -174 units
    // and reports the crossing.
    let mut b = Bird { y: -173_000_000, vel: 0, rotation: 0 };
    let hit = step_bird(&mut b, 100);
    assert!(hit);
    assert_eq!(b.y, -174_000_000);
}

#[test]
fn impulse_thresholds() {
    // Velocity above 2 units/s becomes 12; at or below it becomes 8.
    let mut fast = Bird { y: 0, vel: 20_001, rotation: 0 };
    apply_impulse(&mut fast);
    assert_eq!(fast.vel, 120_000);
    let mut slow = Bird { y: 0, vel: 20_000, rotation: 0 };
    apply_impulse(&mut slow);
    assert_eq!(slow.vel, 80_000);
}

#[test]
fn touching_edges_collide() {
    // Two boxes whose vertical edges exactly touch (zero gap) register
    // as colliding: the overlap test is boundary-inclusive.
    assert!(check_collision(0, 0, 10_000_000, 16_000_000, 34_000_000, 0, 24_000_000,
        158_000_000));
    // One micro-unit of separation does not collide.
    assert!(!check_collision(0, 0, 10_000_000, 16_000_000, 34_000_001, 0, 24_000_000,
        158_000_000));
    // Touching horizontal edges collide too.
    assert!(check_collision(0, 0, 10_000_000, 16_000_000, 0, 174_000_000, 24_000_000,
        158_000_000));
}

#[test]
fn entity_through_gap_is_safe() {
    // An entity centered in a track's gap touches neither box.
    let b = Bird { y: 125_000_000, vel: 0, rotation: 0 };
    let t = Track { x: 0, lower_y: -100_000_000, upper_y: 350_000_000 };
    assert!(!track_collides(&b, &t));
    // At the lower box's top edge it collides.
    let low = Bird { y: 74_000_000, vel: 0, rotation: 0 };
    assert!(track_collides(&low, &t));
}

#[test]
fn track_recycles_at_exact_threshold() {
    // A shift that lands a track exactly on -500 units recycles it to
    // exactly 500 units with the offset applied to both boxes.
    let mut t = Track { x: -498_000_000, lower_y: -100_000_000, upper_y: 350_000_000 };
    // Score 0, dt = 1 cs: shift is 2 units.
    let scored = step_track(&mut t, 1, 0, -50);
    assert!(!scored);
    assert_eq!(t.x, 500_000_000);
    assert_eq!(t.lower_y, -150_000_000);
    assert_eq!(t.upper_y, 300_000_000);
}

#[test]
fn track_gap_narrows_with_score() {
    // At score 30 a recycled track's gap offset shrinks by 30 units.
    let mut t = Track { x: -499_000_000, lower_y: -100_000_000, upper_y: 350_000_000 };
    let scored = step_track(&mut t, 1, 30, 0);
    assert!(!scored);
    assert_eq!(t.lower_y, -100_000_000);
    assert_eq!(t.upper_y, 320_000_000);
}

#[test]
fn track_scoring_crossing() {
    // x from 100 to -100 units crosses the origin and scores.
    let mut t = Track { x: 100_000_000, lower_y: -100_000_000, upper_y: 350_000_000 };
    let scored = step_track(&mut t, 100, 0, 0);
    assert!(scored);
    assert_eq!(t.x, -100_000_000);
    // A track already left of the origin does not score again.
    let mut t2 = Track { x: -100_000_000, lower_y: -100_000_000, upper_y: 350_000_000 };
    assert!(!step_track(&mut t2, 1, 0, 0));
}

#[test]
fn speed_capped_at_score_100() {
    // Scores 100 and 1000 move a track identically: the speed formula
    // reads min(score, 100).
    let mut a = Track { x: 100_000_000, lower_y: -100_000_000, upper_y: 350_000_000 };
    let mut b = Track { x: 100_000_000, lower_y: -100_000_000, upper_y: 350_000_000 };
    step_track(&mut a, 7, 100, 0);
    step_track(&mut b, 7, 1000, 0);
    assert_eq!(a, b);
}

#[test]
fn digits_of_zero() {
    assert_eq!(score_digits(0), vec![0, 0, 0, 0, 0]);
}

#[test]
fn digits_least_significant_first() {
    assert_eq!(score_digits(12), vec![2, 1]);
    assert_eq!(score_digits(120), vec![0, 2, 1]);
    assert_eq!(score_digits(7), vec![7]);
}

#[test]
fn digits_capped_at_display_limit() {
    assert_eq!(score_digits(99_999), vec![9, 9, 9, 9, 9]);
    assert_eq!(score_digits(123_456), vec![9, 9, 9, 9, 9]);
}

#[test]
fn score_addition_saturates() {
    assert_eq!(add_points(10, 3), 13);
    assert_eq!(add_points(u32::MAX - 1, 5), u32::MAX);
}

#[test]
fn scroll_layers_move_and_wrap() {
    // Background at 100 units/s for 1.0 s: 100 units left.
    assert_eq!(scroll_background(0, 100, 0), -100_000_000);
    // The ground layer moves at twice that speed and wraps at -288.
    assert_eq!(scroll_base(-100_000_000, 100, 0), 0);
    assert_eq!(scroll_base(0, 100, 0), -200_000_000);
}

#[test]
fn anim_timer_fires_on_period() {
    let mut t = AnimTimer::new(75);
    assert!(!t.advance(74));
    assert_eq!(t.elapsed, 74);
    assert!(t.advance(1));
    assert_eq!(t.elapsed, 0);
    // A step longer than the period fires and keeps the remainder.
    assert!(t.advance(160));
    assert_eq!(t.elapsed, 10);
}

#[test]
fn wing_frames_cycle() {
    assert_eq!(next_frame(0, 0, 2), 1);
    assert_eq!(next_frame(1, 0, 2), 2);
    assert_eq!(next_frame(2, 0, 2), 0);
}
