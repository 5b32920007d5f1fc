//! A test-harness driver for a tree of header-only library files.
//!
//! Starting from a working directory, the driver locates the library root (the
//! nearest ancestor directory holding a fixed marker entry), enumerates every
//! library unit under it together with its conventionally named test-project
//! directory, classifies the result of running the external test tool once per
//! unit, and accumulates a summary whose failed count decides the final exit
//! status.

pub mod outcome;
pub mod path_util;
pub mod unit;
pub mod locate;
pub mod enumerate;
pub mod summary;
pub mod invoke;
pub mod cli;
