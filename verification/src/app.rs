//! The session state machine: mode, input buffer, append-only transcript and
//! scroll offset, with the atomic operations the event loop and the dispatch
//! task perform on it. The event loop runs them one at a time and the
//! dispatch task commits its outcome through `apply_reply`, so every state
//! the session passes through is one of the post-states specified here.

use vstd::prelude::*;
use crate::api::{CompletionError, RequestContent, RequestPart};

verus! {

/// Whether the session is accepting edits or a reply is in flight.
#[derive(Clone, Copy, Debug, PartialEq, Eq, Structural)]
pub enum AppMode {
    /// Idle: the input buffer is editable and a submission is accepted.
    Normal,
    /// A dispatch task is outstanding: all key input is ignored.
    Processing,
}

/// Who a transcript turn belongs to.
#[derive(Clone, Copy, Debug, PartialEq, Eq, Structural)]
pub enum Role {
    User,
    Model,
}

/// One transcript entry: a speaker and its text, immutable once appended.
pub struct Message {
    pub role: Role,
    pub content: String,
}

/// One edit of the input buffer.
#[derive(Clone, Copy, Debug, PartialEq, Eq, Structural)]
pub enum EditOp {
    /// Append one character at the end.
    Append(char),
    /// Remove the last character; a no-op on an empty buffer.
    RemoveLast,
}

/// The effect of one edit on the buffer.
pub open spec fn apply_edit(buf: Seq<char>, op: EditOp) -> Seq<char> {
    match op {
        EditOp::Append(c) => buf.push(c),
        EditOp::RemoveLast => if buf.len() == 0 {
            buf
        } else {
            buf.drop_last()
        },
    }
}

/// Left-to-right application of a whole edit sequence.
pub open spec fn apply_edits(buf: Seq<char>, ops: Seq<EditOp>) -> Seq<char>
    decreases ops.len(),
{
    if ops.len() == 0 {
        buf
    } else {
        apply_edits(apply_edit(buf, ops[0]), ops.drop_first())
    }
}

/// Editing law: issuing one more edit after a sequence of edits yields the
/// left-to-right fold of the extended sequence. Together with the exact
/// single-step contract of `edit_input`, the buffer after any run of edits is
/// the left-to-right application of the edits issued so far.
pub proof fn lemma_apply_edits_snoc(buf: Seq<char>, ops: Seq<EditOp>, op: EditOp)
    ensures
        apply_edits(buf, ops.push(op)) == apply_edit(apply_edits(buf, ops), op),
    decreases ops.len(),
{
    if ops.len() == 0 {
        assert(ops.push(op)[0] == op);
        assert(ops.push(op).drop_first() =~= Seq::<EditOp>::empty());
        assert(apply_edits(buf, ops.push(op)) == apply_edits(
            apply_edit(buf, op),
            Seq::<EditOp>::empty(),
        ));
        assert(apply_edits(apply_edit(buf, op), Seq::<EditOp>::empty()) == apply_edit(buf, op));
        assert(apply_edits(buf, ops) == buf);
    } else {
        assert(ops.push(op)[0] == ops[0]);
        assert(ops.push(op).drop_first() =~= ops.drop_first().push(op));
        lemma_apply_edits_snoc(apply_edit(buf, ops[0]), ops.drop_first(), op);
        assert(apply_edits(buf, ops.push(op)) == apply_edits(
            apply_edit(buf, ops[0]),
            ops.drop_first().push(op),
        ));
        assert(apply_edits(buf, ops) == apply_edits(apply_edit(buf, ops[0]), ops.drop_first()));
    }
}

/// The role tag the completion service expects for each speaker.
pub open spec fn role_label(r: Role) -> Seq<char> {
    match r {
        Role::User => "user"@,
        Role::Model => "model"@,
    }
}

/// Exact shape of the request built from a transcript: same length, same
/// order, one text part per turn, roles mapped `User` to `"user"` and
/// `Model` to `"model"`.
pub open spec fn is_request_for(req: Seq<RequestContent>, ts: Seq<Message>) -> bool {
    &&& req.len() == ts.len()
    &&& forall|i: int| 0 <= i < ts.len() ==> {
        &&& (#[trigger] req[i]).role@ == role_label(ts[i].role)
        &&& req[i].parts@.len() == 1
        &&& req[i].parts@[0].text@ == ts[i].content@
    }
}

/// A transcript in conversation order: user and assistant turns strictly
/// alternate, starting with the user.
pub open spec fn alternating(ts: Seq<Message>) -> bool {
    forall|i: int| 0 <= i < ts.len() ==> (#[trigger] ts[i].role) == (if i % 2 == 0 {
        Role::User
    } else {
        Role::Model
    })
}

/// Ordering law: in every well-formed session state the transcript reads
/// user turn, assistant turn, user turn, assistant turn, ... in submission
/// order. Since a fresh session is well-formed and every key-dispatch and
/// reply-commit step preserves well-formedness, no interleaving of dispatch
/// completion with later events can put a turn out of that order.
pub proof fn lemma_transcript_order(s: AppState, i: int)
    requires
        s.wf(),
        0 <= i < s.messages@.len(),
    ensures
        s.messages@[i].role == (if i % 2 == 0 {
            Role::User
        } else {
            Role::Model
        }),
{
}

/// The scroll offset after moving by `delta`: clamped at zero below and at
/// the widest value the counter holds above.
pub open spec fn spec_scroll_after(cur: u16, delta: i32) -> u16 {
    let moved = cur + delta;
    if moved < 0 {
        0u16
    } else if moved > u16::MAX {
        u16::MAX
    } else {
        moved as u16
    }
}

/// Scrolling law: the offset can never go below zero — scrolling up at the
/// top stays at the top — and scrolling down from any offset short of the
/// counter's width moves down by exactly one.
pub proof fn lemma_scroll_bounds(cur: u16)
    ensures
        spec_scroll_after(0u16, -1i32) == 0u16,
        spec_scroll_after(cur, -1i32) == (if cur == 0 { 0u16 } else { (cur - 1) as u16 }),
        cur < u16::MAX ==> spec_scroll_after(cur, 1i32) == cur + 1,
{
}

/// Relies on `String::push`: appends the given character to the end of the
/// string.
#[verifier::external_body]
fn string_push_char(s: &mut String, c: char)
    ensures
        final(s)@ == old(s)@.push(c),
{
    s.push(c);
}

/// Relies on `String::pop`: removes the last character and returns it, or
/// returns nothing and leaves the string unchanged when it is empty.
#[verifier::external_body]
fn string_pop_char(s: &mut String) -> (r: Option<char>)
    ensures
        old(s)@.len() == 0 ==> final(s)@ == old(s)@ && r is None,
        old(s)@.len() > 0 ==> final(s)@ == old(s)@.drop_last() && r == Some(old(s)@.last()),
{
    s.pop()
}

/// The whole mutable state of one terminal conversation.
pub struct AppState {
    /// Idle, or a reply in flight.
    pub mode: AppMode,
    /// The not-yet-submitted message.
    pub input: String,
    /// The conversation so far, append-only, in submission order.
    pub messages: Vec<Message>,
    /// The credential handed to the completion service on each call.
    pub api_key: String,
    /// How far the transcript pane is scrolled.
    pub scroll: u16,
}

impl AppState {
    /// Session invariant: the transcript alternates user and assistant turns
    /// in submission order; while a reply is in flight the turn count is odd
    /// (the pending user message is last) and the input buffer is empty;
    /// while idle every submission has its reply, so the turn count is even.
    pub open spec fn wf(&self) -> bool {
        &&& alternating(self.messages@)
        &&& (self.mode is Processing ==> self.messages@.len() % 2 == 1 && self.input@.len() == 0)
        &&& (self.mode is Normal ==> self.messages@.len() % 2 == 0)
    }

    /// A fresh idle session: empty transcript, empty buffer, unscrolled.
    pub fn new(api_key: String) -> (r: Self)
        ensures
            r.mode is Normal,
            r.input@.len() == 0,
            r.messages@.len() == 0,
            r.scroll == 0,
            r.api_key@ == api_key@,
            r.wf(),
    {
        AppState {
            mode: AppMode::Normal,
            input: String::new(),
            messages: Vec::new(),
            api_key,
            scroll: 0,
        }
    }

    /// Apply one edit to the input buffer; every other part of the session is
    /// untouched.
    pub fn edit_input(&mut self, op: EditOp)
        ensures
            final(self).input@ == apply_edit(old(self).input@, op),
            final(self).mode == old(self).mode,
            final(self).messages@ == old(self).messages@,
            final(self).scroll == old(self).scroll,
            final(self).api_key@ == old(self).api_key@,
    {
        match op {
            EditOp::Append(c) => {
                string_push_char(&mut self.input, c);
            }
            EditOp::RemoveLast => {
                let _ = string_pop_char(&mut self.input);
            }
        }
    }

    /// Drain the whole input buffer in one atomic step: nothing and no change
    /// when it is empty, otherwise exactly the buffered text, leaving the
    /// buffer empty.
    pub fn take_input_for_submission(&mut self) -> (r: Option<String>)
        ensures
            old(self).input@.len() == 0 ==> r is None && *final(self) == *old(self),
            old(self).input@.len() > 0 ==> (r matches Some(t) && t@ == old(self).input@
                && final(self).input@.len() == 0),
            final(self).mode == old(self).mode,
            final(self).messages@ == old(self).messages@,
            final(self).scroll == old(self).scroll,
            final(self).api_key@ == old(self).api_key@,
    {
        if self.input.as_str().is_empty() {
            None
        } else {
            let t = self.input.clone();
            self.input = String::new();
            Some(t)
        }
    }

    /// Append one turn at the end of the transcript; order is preserved and
    /// no existing turn is touched.
    pub fn append_turn(&mut self, role: Role, text: String)
        ensures
            final(self).messages@ == old(self).messages@.push((Message { role, content: text })),
            final(self).mode == old(self).mode,
            final(self).input@ == old(self).input@,
            final(self).scroll == old(self).scroll,
            final(self).api_key@ == old(self).api_key@,
    {
        self.messages.push(Message { role, content: text });
    }

    /// Flip the mode flag; nothing else changes.
    pub fn set_mode(&mut self, mode: AppMode)
        ensures
            final(self).mode == mode,
            final(self).input@ == old(self).input@,
            final(self).messages@ == old(self).messages@,
            final(self).scroll == old(self).scroll,
            final(self).api_key@ == old(self).api_key@,
    {
        self.mode = mode;
    }

    /// Move the scroll offset by `delta`, clamped at zero below; nothing else
    /// changes.
    pub fn adjust_scroll(&mut self, delta: i32)
        ensures
            final(self).scroll == spec_scroll_after(old(self).scroll, delta),
            final(self).mode == old(self).mode,
            final(self).input@ == old(self).input@,
            final(self).messages@ == old(self).messages@,
            final(self).api_key@ == old(self).api_key@,
    {
        let moved: i64 = self.scroll as i64 + delta as i64;
        if moved < 0 {
            self.scroll = 0;
        } else if moved > u16::MAX as i64 {
            self.scroll = u16::MAX;
        } else {
            self.scroll = moved as u16;
        }
    }

    /// A consistent copy of the transcript in request form, oldest turn
    /// first, taken in one atomic step.
    pub fn snapshot_transcript_for_request(&self) -> (r: Vec<RequestContent>)
        ensures
            is_request_for(r@, self.messages@),
    {
        let mut contents: Vec<RequestContent> = Vec::new();
        let mut i: usize = 0;
        while i < self.messages.len()
            invariant
                i <= self.messages@.len(),
                is_request_for(contents@, self.messages@.take(i as int)),
            decreases self.messages@.len() - i,
        {
            let m = &self.messages[i];
            let role = match m.role {
                Role::User => String::from_str("user"),
                Role::Model => String::from_str("model"),
            };
            let mut parts: Vec<RequestPart> = Vec::new();
            parts.push(RequestPart { text: m.content.clone() });
            contents.push(RequestContent { parts, role });
            proof {
                assert(self.messages@.take(i + 1int).drop_last() =~= self.messages@.take(
                    i as int,
                ));
                assert(self.messages@.take(i + 1int).last() == self.messages@[i as int]);
            }
            i = i + 1;
        }
        proof {
            assert(self.messages@.take(self.messages@.len() as int) =~= self.messages@);
        }
        contents
    }

    /// The synchronous half of a submission, one atomic step from an idle
    /// session: when the buffer is empty nothing happens and nothing is
    /// returned; otherwise the buffer is drained into a new user turn, the
    /// session enters `Processing`, and the request snapshot of the whole
    /// transcript — the new turn included — is returned for dispatch.
    pub fn begin_submission(&mut self) -> (r: Option<Vec<RequestContent>>)
        requires
            old(self).mode is Normal,
        ensures
            old(self).input@.len() == 0 ==> r is None && *final(self) == *old(self),
            old(self).input@.len() > 0 ==> {
                &&& final(self).input@.len() == 0
                &&& final(self).mode is Processing
                &&& final(self).messages@.len() == old(self).messages@.len() + 1
                &&& old(self).messages@.is_prefix_of(final(self).messages@)
                &&& final(self).messages@.last().role == Role::User
                &&& final(self).messages@.last().content@ == old(self).input@
                &&& (r matches Some(req) && is_request_for(req@, final(self).messages@))
            },
            final(self).scroll == old(self).scroll,
            final(self).api_key@ == old(self).api_key@,
            old(self).wf() ==> final(self).wf(),
    {
        match self.take_input_for_submission() {
            None => None,
            Some(text) => {
                self.append_turn(Role::User, text);
                self.set_mode(AppMode::Processing);
                let req = self.snapshot_transcript_for_request();
                Some(req)
            }
        }
    }

    /// Commit the outcome of a dispatch, one atomic step while a reply is in
    /// flight: exactly one assistant turn is appended — the reply text on
    /// success, the described failure behind the fixed `"Error: "` prefix
    /// otherwise — and the session returns to idle. A failure becomes a
    /// visible turn, never a crash and never an empty turn.
    pub fn apply_reply(&mut self, result: Result<String, CompletionError>)
        requires
            old(self).mode is Processing,
        ensures
            final(self).mode is Normal,
            final(self).messages@.len() == old(self).messages@.len() + 1,
            old(self).messages@.is_prefix_of(final(self).messages@),
            final(self).messages@.last().role == Role::Model,
            (result matches Ok(t) ==> final(self).messages@.last().content@ == t@),
            (result matches Err(e) ==> final(self).messages@.last().content@ == "Error: "@
                + e.spec_describe()),
            result is Err ==> final(self).messages@.last().content@.len() > 0,
            final(self).input@ == old(self).input@,
            final(self).scroll == old(self).scroll,
            final(self).api_key@ == old(self).api_key@,
            old(self).wf() ==> final(self).wf(),
    {
        let text = match result {
            Ok(t) => t,
            Err(e) => {
                proof {
                    reveal_strlit("Error: ");
                }
                let mut m = String::from_str("Error: ");
                m.append(e.describe());
                m
            }
        };
        self.append_turn(Role::Model, text);
        self.set_mode(AppMode::Normal);
    }
}

} // verus!
