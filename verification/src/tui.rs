//! The decision core of the event loop: one key event in, one session
//! mutation and one instruction for the loop out. The loop around it — draw,
//! poll with a bounded timeout, read — performs no state change of its own,
//! so the dispatch table specified here is the whole key-handling behaviour
//! of the session.

use vstd::prelude::*;
use crate::api::RequestContent;
use crate::app::{
    AppMode, AppState, EditOp, Role, apply_edit, is_request_for, spec_scroll_after,
};

verus! {

/// A terminal key, reduced to the keys the session reacts to.
#[derive(Clone, Copy, Debug, PartialEq, Eq, Structural)]
pub enum Key {
    /// A printable character.
    Char(char),
    Backspace,
    Enter,
    Esc,
    Up,
    Down,
    /// Any key the session does not react to.
    Other,
}

/// How a key event was produced; only presses act, so holding a key down or
/// releasing it is never handled twice.
#[derive(Clone, Copy, Debug, PartialEq, Eq, Structural)]
pub enum KeyKind {
    Press,
    Repeat,
    Release,
}

/// What the event loop must do after one key event has been handled.
pub enum LoopAction {
    /// Keep polling and redrawing.
    Continue,
    /// Leave the loop and end the session.
    Quit,
    /// Spawn exactly one dispatch task with this request snapshot.
    Dispatch(Vec<RequestContent>),
}

/// The two states agree on everything but the input buffer.
pub open spec fn same_but_input(pre: AppState, post: AppState) -> bool {
    &&& post.mode == pre.mode
    &&& post.messages@ == pre.messages@
    &&& post.scroll == pre.scroll
    &&& post.api_key@ == pre.api_key@
}

/// The two states agree on everything but the scroll offset.
pub open spec fn same_but_scroll(pre: AppState, post: AppState) -> bool {
    &&& post.mode == pre.mode
    &&& post.input@ == pre.input@
    &&& post.messages@ == pre.messages@
    &&& post.api_key@ == pre.api_key@
}

/// One step of the event loop's key dispatch. Non-press events and, while a
/// reply is in flight, every event leave the session untouched — a second
/// enter can neither append a turn nor spawn a second dispatch. From the
/// idle state, characters and backspace edit the buffer, escape quits, the
/// arrows move the scroll offset, and enter either does nothing (empty
/// buffer) or performs the whole submission step and orders one dispatch.
pub fn handle_key(state: &mut AppState, kind: KeyKind, key: Key) -> (r: LoopAction)
    ensures
        !(kind is Press) ==> *final(state) == *old(state) && r is Continue,
        kind is Press && old(state).mode is Processing ==> *final(state) == *old(state)
            && r is Continue,
        kind is Press && old(state).mode is Normal ==> {
            &&& (key matches Key::Char(c) ==> same_but_input(*old(state), *final(state))
                && final(state).input@ == apply_edit(old(state).input@, EditOp::Append(c))
                && r is Continue)
            &&& (key is Backspace ==> same_but_input(*old(state), *final(state))
                && final(state).input@ == apply_edit(old(state).input@, EditOp::RemoveLast)
                && r is Continue)
            &&& (key is Esc ==> *final(state) == *old(state) && r is Quit)
            &&& (key is Up ==> same_but_scroll(*old(state), *final(state))
                && final(state).scroll == spec_scroll_after(old(state).scroll, -1i32)
                && r is Continue)
            &&& (key is Down ==> same_but_scroll(*old(state), *final(state))
                && final(state).scroll == spec_scroll_after(old(state).scroll, 1i32)
                && r is Continue)
            &&& (key is Other ==> *final(state) == *old(state) && r is Continue)
            &&& (key is Enter && old(state).input@.len() == 0 ==> *final(state) == *old(state)
                && r is Continue)
            &&& (key is Enter && old(state).input@.len() > 0 ==> {
                &&& final(state).input@.len() == 0
                &&& final(state).mode is Processing
                &&& final(state).messages@.len() == old(state).messages@.len() + 1
                &&& old(state).messages@.is_prefix_of(final(state).messages@)
                &&& final(state).messages@.last().role == Role::User
                &&& final(state).messages@.last().content@ == old(state).input@
                &&& final(state).scroll == old(state).scroll
                &&& final(state).api_key@ == old(state).api_key@
                &&& (r matches LoopAction::Dispatch(req) && is_request_for(
                    req@,
                    final(state).messages@,
                ))
            })
        },
        old(state).wf() ==> final(state).wf(),
{
    match kind {
        KeyKind::Press => {}
        _ => {
            return LoopAction::Continue;
        }
    }
    match state.mode {
        AppMode::Processing => LoopAction::Continue,
        AppMode::Normal => match key {
            Key::Char(c) => {
                state.edit_input(EditOp::Append(c));
                LoopAction::Continue
            }
            Key::Backspace => {
                state.edit_input(EditOp::RemoveLast);
                LoopAction::Continue
            }
            Key::Enter => match state.begin_submission() {
                None => LoopAction::Continue,
                Some(req) => LoopAction::Dispatch(req),
            },
            Key::Esc => LoopAction::Quit,
            Key::Up => {
                state.adjust_scroll(-1);
                LoopAction::Continue
            }
            Key::Down => {
                state.adjust_scroll(1);
                LoopAction::Continue
            }
            Key::Other => LoopAction::Continue,
        },
    }
}

} // verus!
