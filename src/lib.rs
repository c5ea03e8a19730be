//! Sandboxed file access for a desktop shell: candidate paths are checked
//! against an allow-list of user directories before any file operation, and
//! each operation's outcome is decided from what was observed on disk.
use vstd::prelude::*;

pub mod display;
pub mod error;
pub mod gateway;
pub mod home;
pub mod path;
pub mod validate;

verus! {

} // verus!
