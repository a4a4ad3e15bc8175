//! Post-processing of one raw line: trim mode, preserve mode, and the
//! substitution of a default value.
use vstd::prelude::*;
use vstd::string::*;
use crate::error::InputError;

verus! {

/// The characters with the Unicode `White_Space` property.
pub open spec fn is_white_space(c: char) -> bool {
    let u = c as u32;
    ||| 0x9 <= u <= 0xd
    ||| u == 0x20
    ||| u == 0x85
    ||| u == 0xa0
    ||| u == 0x1680
    ||| 0x2000 <= u <= 0x200a
    ||| u == 0x2028
    ||| u == 0x2029
    ||| u == 0x202f
    ||| u == 0x205f
    ||| u == 0x3000
}

/// `s` without its leading white space.
pub open spec fn trim_start(s: Seq<char>) -> Seq<char>
    decreases s.len(),
{
    if s.len() > 0 && is_white_space(s[0]) {
        trim_start(s.drop_first())
    } else {
        s
    }
}

/// `s` without its trailing white space.
pub open spec fn trim_end(s: Seq<char>) -> Seq<char>
    decreases s.len(),
{
    if s.len() > 0 && is_white_space(s.last()) {
        trim_end(s.drop_last())
    } else {
        s
    }
}

/// `s` without its leading and trailing white space.
pub open spec fn trimmed(s: Seq<char>) -> Seq<char> {
    trim_end(trim_start(s))
}

/// `s` without one trailing `"\r\n"` or, failing that, one trailing `"\n"`.
pub open spec fn strip_terminator(s: Seq<char>) -> Seq<char> {
    if s.len() >= 2 && s[s.len() - 2] == '\r' && s[s.len() - 1] == '\n' {
        s.subrange(0, s.len() - 2)
    } else if s.len() >= 1 && s[s.len() - 1] == '\n' {
        s.drop_last()
    } else {
        s
    }
}

/// What a raw line becomes: trimmed or stripped of its terminator, and
/// replaced by the default, when there is one, if nothing is left.
pub open spec fn processed(raw: Seq<char>, default: Option<Seq<char>>, trim: bool) -> Seq<char> {
    let body = if trim {
        trimmed(raw)
    } else {
        strip_terminator(raw)
    };
    if body.len() == 0 && default is Some {
        default->Some_0
    } else {
        body
    }
}

/// The text of an optional string slice.
pub open spec fn text_of(o: Option<&str>) -> Option<Seq<char>> {
    match o {
        Some(s) => Some(s@),
        None => None,
    }
}

/// Relies on `str::trim`: the slice without the leading and trailing
/// characters for which `char::is_whitespace` holds (Unicode `White_Space`).
#[verifier::external_body]
fn trim_white_space(s: &str) -> (r: &str)
    ensures
        r@ == trimmed(s@),
{
    s.trim()
}

/// Removes one trailing `"\r\n"` or `"\n"`, and nothing else.
fn strip_line_terminator(line: &str) -> (r: &str)
    ensures
        r@ == strip_terminator(line@),
{
    let n = line.unicode_len();
    if n >= 1 && line.get_char(n - 1) == '\n' {
        if n >= 2 && line.get_char(n - 2) == '\r' {
            line.substring_char(0, n - 2)
        } else {
            line.substring_char(0, n - 1)
        }
    } else {
        line
    }
}

/// Post-processes a raw line. In trim mode all surrounding white space
/// goes; otherwise only the line terminator does. If nothing is left and a
/// default is given, the default is returned verbatim.
pub fn process_input(input: String, default_value: Option<&str>, trim_whitespace: bool) -> (r: Result<String, InputError>)
    ensures
        r is Ok,
        r->Ok_0@ == processed(input@, text_of(default_value), trim_whitespace),
{
    let body = if trim_whitespace {
        trim_white_space(input.as_str())
    } else {
        strip_line_terminator(input.as_str())
    };
    if body.is_empty() {
        if let Some(d) = default_value {
            return Ok(d.to_owned());
        }
    }
    Ok(body.to_owned())
}

} // verus!
