//! Agent sessions, their messages, runs, tool permissions and result handles.

pub mod canonical;
pub mod commit;
pub mod content;
pub mod content_effects;
pub mod effects;
pub mod failures;
pub mod handle;
pub mod laws;
pub mod lookup;
pub mod message;
pub mod model;
pub mod permission;
pub mod permission_effects;
pub mod progress;
pub mod recovery;
pub mod redacted;
pub mod rows;
pub mod run;
pub mod session;
pub mod session_effects;
pub mod status;
pub mod visibility;
pub mod write;
