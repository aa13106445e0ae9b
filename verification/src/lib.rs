//! Simulation engine for traffic through a four-way intersection: a rotating
//! light-phase state machine, per-tick vehicle motion with stop-line and
//! neighbor collision rules, turn resolution inside quadrant decision zones,
//! and per-approach spawn cooldowns.

pub mod geometry;
pub mod lights;
pub mod vehicle;
pub mod view;
