//! The computed part of the renderer's projection: the transcript pane's
//! lines and the input pane's title. Styling, layout and drawing stay with
//! the terminal backend; it receives these values ready-made.

use vstd::prelude::*;
use crate::app::{AppMode, Message, Role};

verus! {

/// The prefix shown before each speaker's turns.
pub open spec fn spec_prefix(r: Role) -> Seq<char> {
    match r {
        Role::User => "You: "@,
        Role::Model => "Gemini: "@,
    }
}

/// Exact shape of the rendered transcript: one prefixed line per turn in
/// transcript order, each followed by a blank separator line.
pub open spec fn is_transcript_lines(lines: Seq<Seq<char>>, ts: Seq<Message>) -> bool {
    &&& lines.len() == 2 * ts.len()
    &&& forall|i: int| 0 <= i < ts.len() ==> {
        &&& (#[trigger] lines[2 * i]) == spec_prefix(ts[i].role) + ts[i].content@
        &&& lines[2 * i + 1] == Seq::<char>::empty()
    }
}

/// The transcript pane's lines: each turn behind its speaker's prefix, a
/// blank line after each, in transcript order.
pub fn transcript_lines(messages: &Vec<Message>) -> (r: Vec<String>)
    ensures
        is_transcript_lines(r@.map_values(|s: String| s@), messages@),
{
    let mut lines: Vec<String> = Vec::new();
    let mut i: usize = 0;
    while i < messages.len()
        invariant
            i <= messages@.len(),
            lines@.len() == 2 * i,
            is_transcript_lines(lines@.map_values(|s: String| s@), messages@.take(i as int)),
        decreases messages@.len() - i,
    {
        let m = &messages[i];
        let mut line = match m.role {
            Role::User => String::from_str("You: "),
            Role::Model => String::from_str("Gemini: "),
        };
        line.append(m.content.as_str());
        let ghost before = lines@;
        lines.push(line);
        lines.push(String::new());
        proof {
            assert(messages@.take(i + 1int).drop_last() =~= messages@.take(i as int));
            let mapped = lines@.map_values(|s: String| s@);
            let prior = before.map_values(|s: String| s@);
            assert forall|j: int| 0 <= j < i + 1 implies {
                &&& (#[trigger] mapped[2 * j]) == spec_prefix(messages@.take(i + 1int)[j].role)
                    + messages@.take(i + 1int)[j].content@
                &&& mapped[2 * j + 1] == Seq::<char>::empty()
            } by {
                if j < i {
                    assert(lines@[2 * j] == before[2 * j]);
                    assert(lines@[2 * j + 1] == before[2 * j + 1]);
                    assert(mapped[2 * j] == prior[2 * j]);
                    assert(mapped[2 * j + 1] == prior[2 * j + 1]);
                }
            }
            assert(is_transcript_lines(mapped, messages@.take(i + 1int)));
        }
        i = i + 1;
    }
    proof {
        assert(messages@.take(messages@.len() as int) =~= messages@);
    }
    lines
}

/// The title of the input pane for each mode.
pub open spec fn spec_input_title(mode: AppMode) -> Seq<char> {
    match mode {
        AppMode::Normal => "Input (Enter to send, Esc to quit)"@,
        AppMode::Processing => "Processing..."@,
    }
}

/// The input pane's title: an editable prompt while idle, a busy indicator
/// while a reply is in flight.
pub fn input_title(mode: AppMode) -> (r: &'static str)
    ensures
        r@ == spec_input_title(mode),
{
    match mode {
        AppMode::Normal => "Input (Enter to send, Esc to quit)",
        AppMode::Processing => "Processing...",
    }
}

} // verus!
