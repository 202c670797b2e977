//! Locates an installed `mojo-lsp-server` binary.
//!
//! Given a home-directory value and a snapshot of filesystem metadata,
//! the locator scans a fixed, priority-ordered list of candidate install
//! locations and returns the first one held as a regular file, falling
//! back to the bare binary name so the host's own search path can
//! resolve it. Resolution never fails: it always yields a non-empty
//! command string.

pub mod fs_model;
pub mod locator;
