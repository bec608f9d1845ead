//! Rendering of the recent conversation into the short textual context
//! that accompanies each generation request.

use vstd::prelude::*;

use crate::message::{Message, MessageRole};
use vstd::string::StringExecFns;

verus! {

/// The label under which a role appears in the rendered context.
pub open spec fn role_label(r: MessageRole) -> Seq<char> {
    match r {
        MessageRole::User => "User"@,
        MessageRole::Assistant => "Assistant"@,
    }
}

/// One rendered context line: the role's label, a separating colon and
/// space, the turn's content, and a closing newline.
pub open spec fn message_line(m: Message) -> Seq<char> {
    role_label(m.role) + ": "@ + m.content@ + "\n"@
}

/// The rendered lines of a sequence of turns, in the turns' order.
pub open spec fn context_lines(ms: Seq<Message>) -> Seq<char>
    decreases ms.len(),
{
    if ms.len() == 0 {
        Seq::empty()
    } else {
        message_line(ms[0]) + context_lines(ms.drop_first())
    }
}

/// The up-to-five most recent turns, in chronological order.
pub open spec fn context_window(ms: Seq<Message>) -> Seq<Message> {
    if ms.len() <= 5 {
        ms
    } else {
        ms.subrange(ms.len() - 5, ms.len() as int)
    }
}

/// The textual context handed to the generation service: a fixed marker for
/// a new conversation, otherwise a header line followed by one line per
/// turn for the up-to-five most recent turns.
pub open spec fn context_of(ms: Seq<Message>) -> Seq<char> {
    if ms.len() == 0 {
        "This is a new conversation."@
    } else {
        "Recent conversation:\n"@ + context_lines(context_window(ms))
    }
}

proof fn lemma_context_lines_push(ms: Seq<Message>, m: Message)
    ensures
        context_lines(ms.push(m)) == context_lines(ms) + message_line(m),
    decreases ms.len(),
{
    reveal_with_fuel(context_lines, 3);
    if ms.len() == 0 {
        assert(ms.push(m)[0] == m);
        assert(ms.push(m).drop_first() =~= Seq::<Message>::empty());
        assert(message_line(m) + Seq::<char>::empty() =~= Seq::<char>::empty()
            + message_line(m));
    } else {
        assert(ms.push(m)[0] == ms[0]);
        assert(ms.push(m).drop_first() =~= ms.drop_first().push(m));
        lemma_context_lines_push(ms.drop_first(), m);
        assert(message_line(ms[0]) + (context_lines(ms.drop_first()) + message_line(m)) =~= (
        message_line(ms[0]) + context_lines(ms.drop_first())) + message_line(m));
    }
}

/// Renders the generation context for a log of turns, exactly as
/// `context_of` states it.
pub fn build_context_prompt(history: &Vec<Message>) -> (r: String)
    ensures
        r@ == context_of(history@),
{
    if history.len() == 0 {
        return String::from_str("This is a new conversation.");
    }
    let mut r = String::from_str("Recent conversation:\n");
    let start = if history.len() > 5 {
        history.len() - 5
    } else {
        0
    };
    let mut i = start;
    proof {
        assert(history@.subrange(start as int, start as int) =~= Seq::<Message>::empty());
        assert(r@ =~= "Recent conversation:\n"@ + context_lines(
            history@.subrange(start as int, start as int),
        ));
    }
    while i < history.len()
        invariant
            start <= i <= history@.len(),
            start as int == if history@.len() > 5 {
                history@.len() - 5
            } else {
                0int
            },
            r@ == "Recent conversation:\n"@ + context_lines(
                history@.subrange(start as int, i as int),
            ),
        decreases history@.len() - i,
    {
        let m = &history[i];
        match m.role {
            MessageRole::User => r.append("User"),
            MessageRole::Assistant => r.append("Assistant"),
        }
        r.append(": ");
        r.append(m.content.as_str());
        r.append("\n");
        proof {
            let pre = history@.subrange(start as int, i as int);
            assert(history@.subrange(start as int, i as int + 1) =~= pre.push(
                history@[i as int],
            ));
            lemma_context_lines_push(pre, history@[i as int]);
            assert(r@ =~= "Recent conversation:\n"@ + context_lines(
                history@.subrange(start as int, i as int + 1),
            ));
        }
        i = i + 1;
    }
    proof {
        assert(history@.subrange(start as int, history@.len() as int) =~= context_window(
            history@,
        ));
    }
    r
}

} // verus!
