//! One prompt/read cycle: show the prompt, read a line, post-process it.
use vstd::prelude::*;
use crate::error::InputError;
use crate::line::{process_input, processed, text_of};
use crate::prompt::{prompt_shown, prompt_text, render_prompt};
use crate::stream::{InputReader, OutputWriter, SinkCall, SourceCall};

verus! {

/// The reading half of a cycle, from source record `q0` to `q1`: exactly one
/// `read_line`, into an empty buffer. Its failure is returned as a
/// `ReadError` with the source's error; otherwise the result is the
/// post-processed line.
pub open spec fn read_outcome(
    q0: Seq<SourceCall>,
    q1: Seq<SourceCall>,
    default: Option<Seq<char>>,
    trim: bool,
    r: Result<String, InputError>,
) -> bool {
    &&& q1.len() == q0.len() + 1
    &&& q1.drop_last() == q0
    &&& q1.last().before == Seq::<char>::empty()
    &&& match q1.last().result {
        Ok(_) => r is Ok && r->Ok_0@ == processed(q1.last().after, default, trim),
        Err(e) => r == Err::<String, InputError>(InputError::ReadError(e)),
    }
}

/// A whole cycle, from sink record `s0` to `s1` and source record `q0` to
/// `q1`, with result `r`:
/// - when the prompt is not shown, the sink is untouched and the line is read;
/// - otherwise the rendered prompt is written; if that fails the result is a
///   `WriteError` with the sink's error and nothing more happens; else one
///   flush follows; if that fails the result is a `FlushError` with the
///   sink's error and nothing is read; else the line is read.
pub open spec fn cycle_effect(
    prompt: Seq<char>,
    default: Option<Seq<char>>,
    trim: bool,
    show_prompt: bool,
    s0: Seq<SinkCall>,
    s1: Seq<SinkCall>,
    q0: Seq<SourceCall>,
    q1: Seq<SourceCall>,
    r: Result<String, InputError>,
) -> bool {
    if !prompt_shown(prompt, show_prompt) {
        s1 == s0 && read_outcome(q0, q1, default, trim, r)
    } else {
        &&& s1.len() > s0.len()
        &&& s1.subrange(0, s0.len() as int) == s0
        &&& match s1[s0.len() as int] {
            SinkCall::Write { text, result } => {
                &&& text == prompt_text(prompt, default)
                &&& match result {
                    Err(e) => {
                        &&& s1.len() == s0.len() + 1
                        &&& q1 == q0
                        &&& r == Err::<String, InputError>(InputError::WriteError(e))
                    },
                    Ok(_) => {
                        &&& s1.len() == s0.len() + 2
                        &&& match s1.last() {
                            SinkCall::Flush { result } => match result {
                                Err(e) => q1 == q0 && r == Err::<String, InputError>(
                                    InputError::FlushError(e),
                                ),
                                Ok(_) => read_outcome(q0, q1, default, trim, r),
                            },
                            SinkCall::Write { .. } => false,
                        }
                    },
                }
            },
            SinkCall::Flush { .. } => false,
        }
    }
}

/// Runs one cycle on the given source and sink. If `show_prompt` holds and
/// `prompt` is non-empty, the text of `render_prompt` is written and flushed
/// first; a failure there ends the cycle before anything is read. Otherwise
/// the sink is not touched. Then one line is read into an empty buffer and
/// post-processed as `process_input` does. A failure of the source or sink
/// is returned as the matching `InputError`, holding the error it gave.
/// The contract speaks through the call records of the source and the sink;
/// for one implemented outside Verus the record keeps its empty default, so
/// the contract then says nothing of it.
pub fn read_input_with_io<R: InputReader, W: OutputWriter>(
    prompt: &str,
    default_value: Option<&str>,
    trim_whitespace: bool,
    show_prompt: bool,
    reader: &mut R,
    writer: &mut W,
) -> (r: Result<String, InputError>)
    ensures
        cycle_effect(
            prompt@,
            text_of(default_value),
            trim_whitespace,
            show_prompt,
            old(writer).sink_log(),
            final(writer).sink_log(),
            old(reader).read_log(),
            final(reader).read_log(),
            r,
        ),
{
    let ghost s0 = writer.sink_log();
    if show_prompt {
        if let Some(text) = render_prompt(prompt, default_value) {
            let written = writer.write_str(text.as_str());
            if let Err(e) = written {
                assert(writer.sink_log().subrange(0, s0.len() as int) =~= s0);
                return Err(InputError::WriteError(e));
            }
            let flushed = writer.flush();
            assert(writer.sink_log().subrange(0, s0.len() as int) =~= s0);
            if let Err(e) = flushed {
                return Err(InputError::FlushError(e));
            }
        }
    }
    let mut buf = String::new();
    let got = reader.read_line(&mut buf);
    assert(reader.read_log().drop_last() =~= old(reader).read_log());
    if let Err(e) = got {
        return Err(InputError::ReadError(e));
    }
    process_input(buf, default_value, trim_whitespace)
}

} // verus!
