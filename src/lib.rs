//! A single four-way intersection: vehicles queue on four approaches, stop for
//! red lights and for each other, cross (turning where their route says so) and
//! leave; a controller decides each tick which approach has the green light.

pub mod geometry;
pub mod vehicle;
pub mod scheduler;
pub mod motion;
mod random;
pub mod system;
pub mod laws;
