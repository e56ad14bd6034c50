//! Verified core of a small markdown-editor backend.
//!
//! The library holds everything the backend decides: trimming and
//! validating a user-supplied path, completing the open and save
//! commands from the host's filesystem outcome, mapping failures into a
//! closed error taxonomy, and resolving the global-shortcut table for
//! the target platform. The host shell performs the actual filesystem
//! and windowing calls and hands their outcomes to these functions as
//! plain values.

pub mod file;
pub mod laws;
pub mod shortcuts;
pub mod trim;
