//! Simulation core of a small arcade game: demons bounce inside an arena, a
//! pointer-steered bean deflects them, and a central safe zone scores how many
//! demons it holds when the countdown runs out.
pub mod entity;
pub mod game;
pub mod rng;
pub mod signal;
