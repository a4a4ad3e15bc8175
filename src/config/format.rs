//! Pieces of the rendered prompt.
use vstd::prelude::*;

verus! {

/// Ends every rendered prompt, with or without a default hint.
pub const PROMPT_SUFFIX: &'static str = ":";

} // verus!
