//! The chaos game: the vertices of a regular polygon, and the cloud of points
//! reached by jumping, again and again, halfway towards a randomly drawn vertex.
//!
//! Coordinates are whatever type the caller uses for a point; the library fixes
//! the order of the work, which vertex each jump aims at, and how many points
//! come out. The arithmetic of one jump is handed in as a function.
mod random;
pub mod sampler;
pub mod polygon;
pub mod game;
pub mod laws;
