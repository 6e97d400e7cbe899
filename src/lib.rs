//! A procedurally built city scene and the integer logic that drives its viewer:
//! scene composition with index rebasing, the city generator, movement-key state
//! and the fixed/variable time-step frame planner.

pub mod geometry;
pub mod scene;
pub mod city;
pub mod movement;
pub mod game_loop;
