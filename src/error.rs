//! The errors of one prompt/read cycle.
use vstd::prelude::*;
use vstd::string::to_string_from_display_ensures;

verus! {

/// std's I/O error, carried as the cause of an `InputError`.
#[verifier::external_type_specification]
#[verifier::external_body]
pub struct ExIoError(std::io::Error);

/// Why a prompt/read cycle failed, with the underlying I/O error as cause.
#[derive(Debug)]
pub enum InputError {
    /// Emitting the rendered prompt failed.
    WriteError(std::io::Error),
    /// Flushing the emitted prompt failed.
    FlushError(std::io::Error),
    /// Reading the line failed.
    ReadError(std::io::Error),
}

impl InputError {
    /// The prefix that opens the message of this kind of error.
    pub open spec fn spec_prefix(&self) -> Seq<char> {
        match self {
            InputError::WriteError(_) => crate::config::errors::WRITE_ERROR_PREFIX@,
            InputError::FlushError(_) => crate::config::errors::FLUSH_ERROR_PREFIX@,
            InputError::ReadError(_) => crate::config::errors::READ_ERROR_PREFIX@,
        }
    }

    /// The I/O error that this error wraps.
    pub open spec fn spec_cause(&self) -> &std::io::Error {
        match self {
            InputError::WriteError(e) => e,
            InputError::FlushError(e) => e,
            InputError::ReadError(e) => e,
        }
    }

    /// The underlying I/O error.
    pub fn cause(&self) -> (r: &std::io::Error)
        ensures
            r == self.spec_cause(),
    {
        match self {
            InputError::WriteError(e) => e,
            InputError::FlushError(e) => e,
            InputError::ReadError(e) => e,
        }
    }

    /// The prefix of this kind of error.
    pub fn prefix(&self) -> (r: &'static str)
        ensures
            r@ == self.spec_prefix(),
    {
        match self {
            InputError::WriteError(_) => crate::config::errors::WRITE_ERROR_PREFIX,
            InputError::FlushError(_) => crate::config::errors::FLUSH_ERROR_PREFIX,
            InputError::ReadError(_) => crate::config::errors::READ_ERROR_PREFIX,
        }
    }

    /// Human-readable text: the kind's prefix, `": "`, then the cause's own
    /// message.
    pub fn message(&self) -> (r: String)
        ensures
            exists|c: String|
                to_string_from_display_ensures::<std::io::Error>(self.spec_cause(), c)
                    && r@ == self.spec_prefix() + seq![':', ' '] + c@,
    {
        let cause_text = self.cause().to_string();
        let mut r = self.prefix().to_owned();
        r.append(": ");
        proof {
            reveal_strlit(": ");
        }
        r.append(cause_text.as_str());
        assert(r@ == self.spec_prefix() + seq![':', ' '] + cause_text@);
        r
    }
}

} // verus!
