//! Transfer tasks and their artifacts.

pub mod artifact;
pub mod effects;
pub mod model;
pub mod recovery;
pub mod task;
