//! Prefixes of the human-readable error messages.
use vstd::prelude::*;

verus! {

pub const WRITE_ERROR_PREFIX: &'static str = "Failed to write to stdout";

pub const FLUSH_ERROR_PREFIX: &'static str = "Failed to flush stdout";

pub const READ_ERROR_PREFIX: &'static str = "Failed to read from stdin";

} // verus!
