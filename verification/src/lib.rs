//! A deterministic galaxy simulation core: a spiral-distribution generator
//! with minimum-separation rejection sampling, a change-triggered
//! regeneration protocol for the star registry, and a tick-based entity
//! simulation (comet motion, click hit-testing, explosion lifecycle).
//!
//! All geometry is carried in fixed-point milli-units (1 unit = 1000), and
//! all randomness comes from a seedable integer generator, so every result
//! is a mathematical function of the inputs and is specified exactly.

pub mod comet;
pub mod components;
pub mod math;
pub mod resources;
pub mod rng;
pub mod sim;
pub mod star;
pub mod trig;
pub mod ui;
