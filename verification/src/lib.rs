//! Core simulation of a small breakout-style arcade game: a ball bouncing
//! inside a walled playfield above a player-controlled paddle.
//!
//! All state lives in integer fixed-point coordinates so that every update is
//! exact: positions are measured in millionths of a playfield unit, elapsed
//! time in microseconds, and velocities in playfield units per second (which
//! is the same as position subunits per time subunit, so integrating a
//! velocity over a tick is a single exact multiplication).
//!
//! The per-tick pipeline runs three systems in a fixed order: the motion
//! integrator ([`world::World::apply_velocity`]), the paddle controller
//! ([`world::World::move_paddle`]) and the collision resolver
//! ([`world::World::check_ball_collision`]).

pub mod constants;
pub mod geometry;
pub mod walls;
pub mod world;
