//! Single-line interactive input: show an optional prompt, read one line,
//! post-process it (trim it, or strip only its line terminator) and fall
//! back to a default value when nothing was entered.

pub mod builder;
pub mod config;
pub mod error;
pub mod laws;
pub mod line;
pub mod prompt;
pub mod read;
pub mod stream;

pub use builder::Input;
pub use error::InputError;
pub use line::process_input;
pub use prompt::render_prompt;
pub use read::read_input_with_io;
pub use stream::{BufReaderInput, ByteWrite, GenericWriter, InputReader, LineRead, OutputWriter};
