//! Selection and preparation of PowerShell build scripts.
//!
//! The library decides which PowerShell binary to use from the output of its
//! version query, assembles the script that runs a build step, and rewrites the
//! execution arguments so that a leaf shell can run the written script.

pub mod version;
pub mod probe;
pub mod execution;
pub mod script;
