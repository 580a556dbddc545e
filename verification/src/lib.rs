//! A host for scripts whose output can be captured.
//!
//! A [`Script`] is compiled once, its top-level statements run once, and its
//! functions are then called by name against the scope those statements left.
//! Everything a script writes goes through [`stdfiles`]: to the real streams
//! while capture is off, into buffers while it is on.

pub mod paint;
pub mod script;
pub mod stdfiles;

pub use crate::script::Error;
pub use crate::script::Output;
pub use crate::script::Script;
