//! Gameplay simulation of a tile-based tower-defense game: path following,
//! targeting, projectile motion, damage and death, build-zone selection and
//! level loading, over integer fixed-point positions and millisecond clocks.

pub mod geom;
pub mod seqs;
pub mod timer;
pub mod creep;
pub mod lifecycle;
pub mod combat;
pub mod placement;
pub mod level;
pub mod world;
pub mod laws;
pub mod modes;
