//! Retained query results: a file of frames per result, indexed by the database.

pub mod batch;
pub mod effects;
pub mod frame;
pub mod laws;
pub mod naming;
pub mod page;
pub mod quota;
pub mod read;
pub mod recovery;
pub mod rows;
pub mod writer;
