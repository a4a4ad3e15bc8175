//! Rendering of the prompt text.
use vstd::prelude::*;
use vstd::string::*;
use crate::config::format::PROMPT_SUFFIX;
use crate::line::text_of;

verus! {

/// The prompt as shown: `"{prompt} [{default}]:"` when a non-empty default
/// is given, `"{prompt}:"` otherwise.
pub open spec fn prompt_text(prompt: Seq<char>, default: Option<Seq<char>>) -> Seq<char> {
    if default is Some && default->Some_0.len() > 0 {
        prompt + seq![' ', '['] + default->Some_0 + seq![']', ':']
    } else {
        prompt + seq![':']
    }
}

/// Whether a prompt is emitted at all: it must be asked for and non-empty.
pub open spec fn prompt_shown(prompt: Seq<char>, show_prompt: bool) -> bool {
    show_prompt && prompt.len() > 0
}

/// Renders the prompt; an empty prompt renders to nothing at all.
pub fn render_prompt(prompt: &str, default_value: Option<&str>) -> (r: Option<String>)
    ensures
        r is None <==> prompt@.len() == 0,
        r is Some ==> r->Some_0@ == prompt_text(prompt@, text_of(default_value)),
{
    if prompt.is_empty() {
        return None;
    }
    let mut text = prompt.to_owned();
    match default_value {
        Some(d) => {
            if !d.is_empty() {
                text.append(" [");
                text.append(d);
                text.append("]");
            }
        },
        None => {},
    }
    text.append(PROMPT_SUFFIX);
    proof {
        reveal_strlit(" [");
        reveal_strlit("]");
        reveal_strlit(":");
        assert(PROMPT_SUFFIX@ =~= seq![':']);
        assert(text@ =~= prompt_text(prompt@, text_of(default_value)));
    }
    Some(text)
}

} // verus!
