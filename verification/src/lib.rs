//! Core simulation of a side-scrolling obstacle-avoidance game: a controlled
//! entity falls under gravity, a player action nudges it upward, and it must
//! pass through a stream of gapped obstacle tracks that scroll leftward and
//! recycle. A score counts passed tracks; a collision or a fall to the floor
//! ends the run, and a restart path brings the game back.
//!
//! All world coordinates are fixed-point integers: one world unit is
//! `SCALE` micro-units, and one tick's elapsed time is a whole number of
//! centiseconds. With these scales every constant of the game (the gravity
//! of -39.24 units per second squared above all) is an exact integer, so
//! the physics needs no rounding anywhere.

pub mod anim;
pub mod bird;
pub mod collision;
pub mod game;
pub mod laws;
pub mod params;
pub mod rng;
pub mod score;
pub mod scroll;
pub mod tracks;
