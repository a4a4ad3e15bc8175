//! Laws relating the two post-processing modes and default substitution.
use vstd::prelude::*;
use crate::line::{is_white_space, processed, strip_terminator, trim_end, trim_start, trimmed};

verus! {

/// Leading white space of a concatenation: once `s` has a non-white
/// character, the rest of the text is kept as it is.
proof fn lemma_trim_start_concat(s: Seq<char>, t: Seq<char>)
    ensures
        trim_start(s + t) == (if trim_start(s).len() > 0 {
            trim_start(s) + t
        } else {
            trim_start(t)
        }),
    decreases s.len(),
{
    if s.len() == 0 {
        assert(s + t =~= t);
    } else if is_white_space(s[0]) {
        assert((s + t).drop_first() =~= s.drop_first() + t);
        lemma_trim_start_concat(s.drop_first(), t);
    }
}

/// Appending a white-space character does not change the trimmed text.
proof fn lemma_trimmed_push_white(s: Seq<char>, c: char)
    requires
        is_white_space(c),
    ensures
        trimmed(s.push(c)) == trimmed(s),
{
    lemma_trim_start_concat(s, seq![c]);
    assert(s.push(c) =~= s + seq![c]);
    if trim_start(s).len() > 0 {
        assert((trim_start(s) + seq![c]).drop_last() =~= trim_start(s));
    } else {
        assert(seq![c].drop_first() =~= Seq::<char>::empty());
        assert(trim_start(seq![c].drop_first()) =~= Seq::<char>::empty());
        assert(trim_start(s) =~= Seq::<char>::empty());
    }
}

/// `trim_start(s)` is a suffix of `s` after white space only.
proof fn lemma_trim_start_shape(s: Seq<char>) -> (i: int)
    ensures
        0 <= i <= s.len(),
        trim_start(s) == s.subrange(i, s.len() as int),
        forall|k: int| 0 <= k < i ==> is_white_space(#[trigger] s[k]),
        i < s.len() ==> !is_white_space(s[i]),
    decreases s.len(),
{
    if s.len() > 0 && is_white_space(s[0]) {
        let i0 = lemma_trim_start_shape(s.drop_first());
        assert forall|k: int| 0 <= k < i0 + 1 implies is_white_space(#[trigger] s[k]) by {
            if k > 0 {
                assert(s[k] == s.drop_first()[k - 1]);
            }
        }
        assert(s.drop_first().subrange(i0, s.len() - 1) =~= s.subrange(i0 + 1, s.len() as int));
        i0 + 1
    } else {
        assert(s.subrange(0, s.len() as int) =~= s);
        0
    }
}

/// `trim_end(s)` is a prefix of `s` followed by white space only.
proof fn lemma_trim_end_shape(s: Seq<char>) -> (j: int)
    ensures
        0 <= j <= s.len(),
        trim_end(s) == s.subrange(0, j),
        forall|k: int| j <= k < s.len() ==> is_white_space(#[trigger] s[k]),
        j > 0 ==> !is_white_space(s[j - 1]),
    decreases s.len(),
{
    if s.len() > 0 && is_white_space(s.last()) {
        let j0 = lemma_trim_end_shape(s.drop_last());
        assert forall|k: int| j0 <= k < s.len() implies is_white_space(#[trigger] s[k]) by {
            if k < s.len() - 1 {
                assert(s[k] == s.drop_last()[k]);
            }
        }
        assert(s.drop_last().subrange(0, j0) =~= s.subrange(0, j0));
        j0
    } else {
        assert(s.subrange(0, s.len() as int) =~= s);
        s.len() as int
    }
}

/// A text of white space only trims to nothing.
proof fn lemma_trim_start_blank(s: Seq<char>)
    requires
        forall|k: int| 0 <= k < s.len() ==> is_white_space(#[trigger] s[k]),
    ensures
        trim_start(s).len() == 0,
    decreases s.len(),
{
    if s.len() > 0 {
        assert(is_white_space(s[0]));
        assert forall|k: int| 0 <= k < s.drop_first().len() implies is_white_space(
            #[trigger] s.drop_first()[k],
        ) by {
            assert(s.drop_first()[k] == s[k + 1]);
        }
        lemma_trim_start_blank(s.drop_first());
    }
}

/// Preserve-mode post-processing never strips twice: processing its own
/// result again leaves that result as it is. Left out are the results that
/// still end in a line feed (the raw line `"a\n\n"` gives `"a\n"`), which a
/// second pass shortens; kept among them are those that a second pass turns
/// into the default when the default is that very result.
pub proof fn lemma_preserve_idempotent(raw: Seq<char>, default: Option<Seq<char>>)
    requires
        processed(raw, default, false).len() == 0 || processed(raw, default, false).last() != '\n'
            || (strip_terminator(processed(raw, default, false)).len() == 0 && default == Some(
            processed(raw, default, false),
        )),
    ensures
        processed(processed(raw, default, false), default, false) == processed(raw, default, false),
{
    let t = processed(raw, default, false);
    if t.len() == 0 || t.last() != '\n' {
        assert(strip_terminator(t) == t);
    }
}

/// Trim mode removes at least what preserve mode removes: the trimmed line
/// equals the trimmed terminator-stripped line, and it is that stripped line
/// without its leading and trailing white space, and without anything else.
pub proof fn lemma_trim_covers_preserve(raw: Seq<char>)
    ensures
        trimmed(raw) == trimmed(strip_terminator(raw)),
        exists|i: int, j: int|
            0 <= i <= j <= strip_terminator(raw).len() && trimmed(raw) == #[trigger] strip_terminator(
                raw,
            ).subrange(i, j) && (forall|k: int|
                0 <= k < i ==> is_white_space(#[trigger] strip_terminator(raw)[k])) && (forall|k: int|
                j <= k < strip_terminator(raw).len() ==> is_white_space(
                    #[trigger] strip_terminator(raw)[k],
                )),
        trimmed(raw).len() > 0 ==> !is_white_space(trimmed(raw)[0]) && !is_white_space(
            trimmed(raw).last(),
        ),
{
    let p = strip_terminator(raw);
    if raw.len() >= 2 && raw[raw.len() - 2] == '\r' && raw[raw.len() - 1] == '\n' {
        assert(raw =~= p.push('\r').push('\n'));
        lemma_trimmed_push_white(p.push('\r'), '\n');
        lemma_trimmed_push_white(p, '\r');
    } else if raw.len() >= 1 && raw[raw.len() - 1] == '\n' {
        assert(raw =~= p.push('\n'));
        lemma_trimmed_push_white(p, '\n');
    }
    let i = lemma_trim_start_shape(p);
    let q = trim_start(p);
    let j0 = lemma_trim_end_shape(q);
    assert(q.subrange(0, j0) =~= p.subrange(i, i + j0));
    assert forall|k: int| i + j0 <= k < p.len() implies is_white_space(#[trigger] p[k]) by {
        assert(p[k] == q[k - i]);
    }
    assert(trimmed(raw) == p.subrange(i, i + j0));
    if trimmed(raw).len() > 0 {
        assert(trimmed(raw)[0] == p[i]);
        assert(trimmed(raw).last() == q[j0 - 1]);
    }
}

/// In trim mode a line of white space only, or an empty one, gives the
/// default when there is one (even an empty default), and the empty text
/// when there is none.
pub proof fn lemma_trim_blank_gives_default(raw: Seq<char>, default: Option<Seq<char>>)
    requires
        forall|k: int| 0 <= k < raw.len() ==> is_white_space(#[trigger] raw[k]),
    ensures
        processed(raw, default, true) == (match default {
            Some(d) => d,
            None => Seq::<char>::empty(),
        }),
{
    lemma_trim_start_blank(raw);
    assert(trimmed(raw) =~= Seq::<char>::empty());
}

/// In preserve mode the default `d` comes back exactly when the raw line is
/// `""`, `"\n"` or `"\r\n"`. Left out: a raw line whose stripped text happens
/// to equal a non-empty `d`, which is returned as typed and so also equals `d`.
pub proof fn lemma_preserve_default_iff_empty(raw: Seq<char>, d: Seq<char>)
    requires
        strip_terminator(raw).len() == 0 || strip_terminator(raw) != d,
    ensures
        (processed(raw, Some(d), false) == d) <==> (raw == Seq::<char>::empty() || raw == seq!['\n']
            || raw == seq!['\r', '\n']),
{
    if raw.len() >= 2 && raw[raw.len() - 2] == '\r' && raw[raw.len() - 1] == '\n' {
        if raw.len() == 2 {
            assert(raw =~= seq!['\r', '\n']);
        } else {
            assert(raw != seq!['\n']);
            assert(raw != Seq::<char>::empty());
        }
    } else if raw.len() >= 1 && raw[raw.len() - 1] == '\n' {
        if raw.len() == 1 {
            assert(raw =~= seq!['\n']);
        } else {
            assert(raw != Seq::<char>::empty());
            assert(raw != seq!['\n']);
            assert(seq!['\r', '\n'][0] == '\r');
            assert(raw != seq!['\r', '\n']);
        }
    } else {
        if raw.len() == 0 {
            assert(raw =~= Seq::<char>::empty());
        }
        assert(seq!['\n'][0] == '\n');
        assert(seq!['\r', '\n'][1] == '\n');
    }
}

/// In preserve mode a raw line of one or more spaces is returned as it is,
/// even when a default is present.
pub proof fn lemma_preserve_keeps_spaces(raw: Seq<char>, default: Option<Seq<char>>)
    requires
        raw.len() > 0,
        forall|k: int| 0 <= k < raw.len() ==> #[trigger] raw[k] == ' ',
    ensures
        processed(raw, default, false) == raw,
{
    assert(raw[raw.len() - 1] == ' ');
}

} // verus!
