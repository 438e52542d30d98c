//! Simulation core of a top-down survival game: mobs moving under mutual and
//! player-driven forces, a player seeking a commanded target, projectiles that
//! home toward the mob cluster and damage mobs on contact, and waves of mobs
//! that respawn with escalating size once the field is cleared.
//!
//! All physical quantities are fixed-point integers (multiples of 1/1024 of a
//! world unit, held in `i64`), so every force, integration and combat rule is
//! exact integer arithmetic with proved bounds: no overflow, no division by
//! zero, and no unbounded growth of stored state.

pub mod color;
pub mod combat;
pub mod body;
pub mod forces;
pub mod fx;
pub mod mob;
pub mod player;
pub mod timer;
pub mod vec2;
pub mod waves;
pub mod world;
