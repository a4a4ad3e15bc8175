//! Text constants shared by the library.
pub mod errors;
pub mod format;
