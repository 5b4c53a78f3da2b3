//! The per-task push and the whole-repo sync report of the hook-less
//! command surface.

pub mod push;
pub mod sync;
