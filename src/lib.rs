//! Geometric clipmap terrain: the five mesh stamps, the per-frame placement
//! of their instances around the camera, and the small entity world that an
//! application builds on.

pub mod stamp;
pub mod clipmap;
pub mod terrain;
pub mod world;
