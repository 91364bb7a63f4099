//! Operator commands typed into the chat bridge.
use vstd::prelude::*;
use crate::packet::OperatorAction;
use crate::text::{is_whitespace, is_whitespace_char, span_equals};

verus! {

/// `s` without its leading whitespace.
pub open spec fn trim_start_ws(s: Seq<char>) -> Seq<char>
    decreases s.len(),
{
    if s.len() > 0 && is_whitespace(s[0]) {
        trim_start_ws(s.drop_first())
    } else {
        s
    }
}

/// The characters of `s` before its first whitespace or `@` (the command
/// word without a `@botname` suffix).
pub open spec fn command_word(s: Seq<char>) -> Seq<char>
    decreases s.len(),
{
    if s.len() == 0 || is_whitespace(s[0]) || s[0] == '@' {
        Seq::empty()
    } else {
        seq![s[0]] + command_word(s.drop_first())
    }
}

/// The action a command word requests.
pub open spec fn action_for_word(w: Seq<char>) -> Option<OperatorAction> {
    if w == "/pause"@ || w == "/halt"@ {
        Some(OperatorAction::HaltEntries)
    } else if w == "/resume"@ {
        Some(OperatorAction::ResumeEntries)
    } else if w == "/flatten"@ || w == "/flush"@ || w == "/cancel"@ {
        Some(OperatorAction::FlattenAll)
    } else if w == "/status"@ {
        Some(OperatorAction::StatusPing)
    } else {
        None
    }
}

/// The action requested by a chat message.
pub open spec fn command_action(text: Seq<char>) -> Option<OperatorAction> {
    action_for_word(command_word(trim_start_ws(text)))
}

/// The operator action a chat message requests: its first word, up to any
/// `@botname` suffix, among `/pause` or `/halt`, `/resume`, `/flatten`,
/// `/flush` or `/cancel`, and `/status`.
pub fn parse_command(text: &str) -> (r: Option<OperatorAction>)
    ensures
        r == command_action(text@),
{
    let n = text.unicode_len();
    let mut i: usize = 0;
    assert(text@.subrange(0, n as int) =~= text@);
    while i < n && is_whitespace_char(text.get_char(i))
        invariant
            i <= n,
            n == text@.len(),
            trim_start_ws(text@) == trim_start_ws(text@.subrange(i as int, n as int)),
        decreases n - i,
    {
        assert(text@.subrange(i as int, n as int).drop_first() =~= text@.subrange(
            i + 1,
            n as int,
        ));
        i += 1;
    }
    assert(trim_start_ws(text@) == text@.subrange(i as int, n as int));
    let mut j: usize = i;
    assert(text@.subrange(i as int, i as int) =~= Seq::<char>::empty());
    while j < n && !is_whitespace_char(text.get_char(j)) && text.get_char(j) != '@'
        invariant
            i <= j <= n,
            n == text@.len(),
            command_word(text@.subrange(i as int, n as int)) == text@.subrange(i as int, j as int)
                + command_word(text@.subrange(j as int, n as int)),
        decreases n - j,
    {
        assert(text@.subrange(j as int, n as int).drop_first() =~= text@.subrange(
            j + 1,
            n as int,
        ));
        assert(text@.subrange(i as int, j as int) + seq![text@[j as int]] =~= text@.subrange(
            i as int,
            j + 1,
        ));
        assert(text@.subrange(i as int, j as int) + (seq![text@[j as int]] + command_word(
            text@.subrange(j + 1, n as int),
        )) =~= text@.subrange(i as int, j + 1) + command_word(text@.subrange(j + 1, n as int)));
        j += 1;
    }
    assert(command_word(text@.subrange(j as int, n as int)) =~= Seq::<char>::empty());
    assert(command_word(trim_start_ws(text@)) =~= text@.subrange(i as int, j as int));
    if span_equals(text, i, j, "/pause") || span_equals(text, i, j, "/halt") {
        Some(OperatorAction::HaltEntries)
    } else if span_equals(text, i, j, "/resume") {
        Some(OperatorAction::ResumeEntries)
    } else if span_equals(text, i, j, "/flatten") || span_equals(text, i, j, "/flush") || span_equals(
        text,
        i,
        j,
        "/cancel",
    ) {
        Some(OperatorAction::FlattenAll)
    } else if span_equals(text, i, j, "/status") {
        Some(OperatorAction::StatusPing)
    } else {
        None
    }
}

/// Only the listed command words request an action, each its own: `/pause`
/// and `/halt` halt entries, `/resume` alone resumes them, `/flatten`,
/// `/flush` and `/cancel` flatten, `/status` asks for status; every other
/// first word (such as `/start`) requests nothing.
pub proof fn law_command_words(text: Seq<char>)
    ensures
        ({
            let w = command_word(trim_start_ws(text));
            &&& command_action(text) == Some(OperatorAction::HaltEntries) <==> (w == "/pause"@ || w
                == "/halt"@)
            &&& command_action(text) == Some(OperatorAction::ResumeEntries) <==> w == "/resume"@
            &&& command_action(text) == Some(OperatorAction::FlattenAll) <==> (w == "/flatten"@ || w
                == "/flush"@ || w == "/cancel"@)
            &&& command_action(text) == Some(OperatorAction::StatusPing) <==> w == "/status"@
            &&& command_action(text) is None <==> !(w == "/pause"@ || w == "/halt"@ || w
                == "/resume"@ || w == "/flatten"@ || w == "/flush"@ || w == "/cancel"@ || w
                == "/status"@)
        }),
{
    reveal_strlit("/pause");
    reveal_strlit("/halt");
    reveal_strlit("/resume");
    reveal_strlit("/flatten");
    reveal_strlit("/flush");
    reveal_strlit("/cancel");
    reveal_strlit("/status");
    let w = command_word(trim_start_ws(text));
    if w == "/resume"@ {
        assert(w[1] == 'r');
    }
    if w == "/status"@ {
        assert(w[1] == 's');
    }
    if w == "/flatten"@ || w == "/flush"@ || w == "/cancel"@ {
        assert(w[1] == 'f' || w[1] == 'c');
    }
}

/// Leading whitespace does not change the command a message requests.
pub proof fn law_leading_whitespace_ignored(c: char, text: Seq<char>)
    requires
        is_whitespace(c),
    ensures
        command_action(seq![c] + text) == command_action(text),
{
    assert((seq![c] + text).drop_first() =~= text);
}

/// A command word followed by whitespace or by an `@botname` suffix, and
/// anything after that, requests what the word alone requests.
pub proof fn law_command_suffix_ignored(w: Seq<char>, sep: char, rest: Seq<char>)
    requires
        w.len() > 0,
        forall|i: int| 0 <= i < w.len() ==> !is_whitespace(#[trigger] w[i]) && w[i] != '@',
        sep == '@' || is_whitespace(sep),
    ensures
        command_action(w + seq![sep] + rest) == command_action(w),
{
    lemma_word_before(w, sep, rest);
    lemma_word_alone(w);
    assert(trim_start_ws(w + seq![sep] + rest) == w + seq![sep] + rest);
    assert(trim_start_ws(w) == w);
}

proof fn lemma_word_before(w: Seq<char>, sep: char, rest: Seq<char>)
    requires
        forall|i: int| 0 <= i < w.len() ==> !is_whitespace(#[trigger] w[i]) && w[i] != '@',
        sep == '@' || is_whitespace(sep),
    ensures
        command_word(w + seq![sep] + rest) == w,
    decreases w.len(),
{
    let s = w + seq![sep] + rest;
    if w.len() == 0 {
        assert(s[0] == sep);
        assert(w =~= Seq::<char>::empty());
    } else {
        let t = w.drop_first();
        assert forall|i: int| 0 <= i < t.len() implies !is_whitespace(#[trigger] t[i]) && t[i] != '@' by {
            assert(t[i] == w[i + 1]);
        }
        lemma_word_before(t, sep, rest);
        assert(s[0] == w[0]);
        assert(s.drop_first() =~= t + seq![sep] + rest);
        assert(seq![w[0]] + t =~= w);
    }
}

proof fn lemma_word_alone(w: Seq<char>)
    requires
        forall|i: int| 0 <= i < w.len() ==> !is_whitespace(#[trigger] w[i]) && w[i] != '@',
    ensures
        command_word(w) == w,
    decreases w.len(),
{
    if w.len() > 0 {
        let t = w.drop_first();
        assert forall|i: int| 0 <= i < t.len() implies !is_whitespace(#[trigger] t[i]) && t[i] != '@' by {
            assert(t[i] == w[i + 1]);
        }
        lemma_word_alone(t);
        assert(seq![w[0]] + t =~= w);
    }
}

} // verus!
