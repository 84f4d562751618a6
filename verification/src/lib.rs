//! Core of a tile-based ecological simulation: organism lifecycle systems
//! (growth by photosynthesis, mass upkeep, despawn on starvation) and a
//! hex-grid helper that picks a random passable neighboring tile.
//!
//! Masses, rates and elapsed time are fixed-point numbers: an `i64` counts
//! thousandths of a unit (see [`mass::SCALE`]). The host engine that renders
//! the world and schedules ticks is an external collaborator: it hands the
//! systems plain values and applies their results.
pub mod mass;
pub mod produce;
pub mod pathfinding;
pub mod structures;
