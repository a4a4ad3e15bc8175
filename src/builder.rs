//! A fluent configuration of one prompt/read cycle.
use vstd::prelude::*;
use vstd::string::*;
use crate::error::InputError;
use crate::read::{cycle_effect, read_input_with_io};
use crate::stream::{InputReader, OutputWriter};

verus! {

/// The four settings of a cycle: prompt text, optional default, trim mode,
/// and whether to show the prompt.
pub struct Input {
    prompt: String,
    default_value: Option<String>,
    trim: bool,
    show_prompt: bool,
}

impl Input {
    /// The prompt text.
    pub closed spec fn spec_prompt(&self) -> Seq<char> {
        self.prompt@
    }

    /// The default value, if any.
    pub closed spec fn spec_default(&self) -> Option<Seq<char>> {
        match self.default_value {
            Some(d) => Some(d@),
            None => None,
        }
    }

    /// Trim mode (`true`) or preserve mode (`false`).
    pub closed spec fn spec_trim(&self) -> bool {
        self.trim
    }

    /// Whether the prompt is to be shown.
    pub closed spec fn spec_show_prompt(&self) -> bool {
        self.show_prompt
    }

    /// A cycle with the given prompt, no default, trim mode on, and the
    /// prompt shown when it is non-empty.
    pub fn new(prompt: &str) -> (r: Input)
        ensures
            r.spec_prompt() == prompt@,
            r.spec_default() is None,
            r.spec_trim(),
            r.spec_show_prompt() == (prompt@.len() > 0),
    {
        Input { prompt: prompt.to_owned(), default_value: None, trim: true, show_prompt: !prompt.is_empty() }
    }

    /// Sets the default value.
    pub fn default(self, value: &str) -> (r: Input)
        ensures
            r.spec_prompt() == self.spec_prompt(),
            r.spec_default() == Some(value@),
            r.spec_trim() == self.spec_trim(),
            r.spec_show_prompt() == self.spec_show_prompt(),
    {
        Input { default_value: Some(value.to_owned()), ..self }
    }

    /// Chooses trim mode (`true`) or preserve mode (`false`).
    pub fn trim(self, trim: bool) -> (r: Input)
        ensures
            r.spec_prompt() == self.spec_prompt(),
            r.spec_default() == self.spec_default(),
            r.spec_trim() == trim,
            r.spec_show_prompt() == self.spec_show_prompt(),
    {
        Input { trim, ..self }
    }

    /// Chooses whether the prompt is shown; an empty prompt never is.
    pub fn show_prompt(self, show: bool) -> (r: Input)
        ensures
            r.spec_prompt() == self.spec_prompt(),
            r.spec_default() == self.spec_default(),
            r.spec_trim() == self.spec_trim(),
            r.spec_show_prompt() == show,
    {
        Input { show_prompt: show, ..self }
    }

    /// Runs the configured cycle on the given source and sink, as
    /// `read_input_with_io` does.
    pub fn read_with_io<R: InputReader, W: OutputWriter>(&self, reader: &mut R, writer: &mut W) -> (r: Result<String, InputError>)
        ensures
            cycle_effect(
                self.spec_prompt(),
                self.spec_default(),
                self.spec_trim(),
                self.spec_show_prompt(),
                old(writer).sink_log(),
                final(writer).sink_log(),
                old(reader).read_log(),
                final(reader).read_log(),
                r,
            ),
    {
        let default_value: Option<&str> = match &self.default_value {
            Some(d) => Some(d.as_str()),
            None => None,
        };
        assert(crate::line::text_of(default_value) == self.spec_default());
        read_input_with_io(self.prompt.as_str(), default_value, self.trim, self.show_prompt, reader, writer)
    }
}

} // verus!
