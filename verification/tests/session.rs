use gemini_chat::app::{AppMode, AppState, EditOp, Role};
use gemini_chat::tui::{handle_key, Key, KeyKind, LoopAction};
use gemini_chat::api::CompletionError;

fn fresh() -> AppState {
    AppState::new("test-key".to_string())
}

fn type_str(state: &mut AppState, text: &str) {
    for c in text.chars() {
        let action = handle_key(state, KeyKind::Press, Key::Char(c));
        assert!(matches!(action, LoopAction::Continue));
    }
}

#[test]
fn new_session_is_idle_and_empty() {
    let s = fresh();
    assert!(matches!(s.mode, AppMode::Normal));
    assert_eq!(s.input, "");
    assert_eq!(s.messages.len(), 0);
    assert_eq!(s.scroll, 0);
    assert_eq!(s.api_key, "test-key");
}

#[test]
fn edits_fold_left_to_right() {
    let mut s = fresh();
    s.edit_input(EditOp::Append('a'));
    s.edit_input(EditOp::Append('b'));
    s.edit_input(EditOp::Append('c'));
    s.edit_input(EditOp::RemoveLast);
    s.edit_input(EditOp::Append('d'));
    assert_eq!(s.input, "abd");
    assert!(matches!(s.mode, AppMode::Normal));
    assert_eq!(s.messages.len(), 0);
}

#[test]
fn backspace_on_empty_buffer_is_noop() {
    let mut s = fresh();
    s.edit_input(EditOp::RemoveLast);
    assert_eq!(s.input, "");
    let action = handle_key(&mut s, KeyKind::Press, Key::Backspace);
    assert!(matches!(action, LoopAction::Continue));
    assert_eq!(s.input, "");
}

#[test]
fn keys_edit_the_buffer() {
    let mut s = fresh();
    type_str(&mut s, "hello");
    let action = handle_key(&mut s, KeyKind::Press, Key::Backspace);
    assert!(matches!(action, LoopAction::Continue));
    assert_eq!(s.input, "hell");
}

#[test]
fn submit_with_empty_buffer_is_noop() {
    let mut s = fresh();
    let action = handle_key(&mut s, KeyKind::Press, Key::Enter);
    assert!(matches!(action, LoopAction::Continue));
    assert!(matches!(s.mode, AppMode::Normal));
    assert_eq!(s.messages.len(), 0);
    assert_eq!(s.input, "");
}

#[test]
fn submit_with_nonempty_buffer() {
    let mut s = fresh();
    type_str(&mut s, "hi");
    let action = handle_key(&mut s, KeyKind::Press, Key::Enter);
    assert_eq!(s.input, "");
    assert!(matches!(s.mode, AppMode::Processing));
    assert_eq!(s.messages.len(), 1);
    assert_eq!(s.messages[0].role, Role::User);
    assert_eq!(s.messages[0].content, "hi");
    match action {
        LoopAction::Dispatch(req) => {
            assert_eq!(req.len(), 1);
            assert_eq!(req[0].role, "user");
            assert_eq!(req[0].parts.len(), 1);
            assert_eq!(req[0].parts[0].text, "hi");
        }
        _ => panic!("a non-empty submission must order a dispatch"),
    }
}

#[test]
fn no_second_submission_while_processing() {
    let mut s = fresh();
    type_str(&mut s, "hi");
    let first = handle_key(&mut s, KeyKind::Press, Key::Enter);
    assert!(matches!(first, LoopAction::Dispatch(_)));
    let second = handle_key(&mut s, KeyKind::Press, Key::Enter);
    assert!(matches!(second, LoopAction::Continue));
    assert_eq!(s.messages.len(), 1);
    assert!(matches!(s.mode, AppMode::Processing));
}

#[test]
fn all_keys_ignored_while_processing() {
    let mut s = fresh();
    type_str(&mut s, "hi");
    handle_key(&mut s, KeyKind::Press, Key::Enter);
    for key in [Key::Char('x'), Key::Backspace, Key::Esc, Key::Up, Key::Down, Key::Other] {
        let action = handle_key(&mut s, KeyKind::Press, key);
        assert!(matches!(action, LoopAction::Continue));
    }
    assert_eq!(s.input, "");
    assert_eq!(s.messages.len(), 1);
    assert_eq!(s.scroll, 0);
    assert!(matches!(s.mode, AppMode::Processing));
}

#[test]
fn repeat_and_release_events_are_ignored() {
    let mut s = fresh();
    let a = handle_key(&mut s, KeyKind::Repeat, Key::Char('x'));
    assert!(matches!(a, LoopAction::Continue));
    let b = handle_key(&mut s, KeyKind::Release, Key::Enter);
    assert!(matches!(b, LoopAction::Continue));
    assert_eq!(s.input, "");
    assert_eq!(s.messages.len(), 0);
    assert!(matches!(s.mode, AppMode::Normal));
}

#[test]
fn escape_quits_from_idle() {
    let mut s = fresh();
    type_str(&mut s, "draft");
    let action = handle_key(&mut s, KeyKind::Press, Key::Esc);
    assert!(matches!(action, LoopAction::Quit));
    assert_eq!(s.input, "draft");
    assert_eq!(s.messages.len(), 0);
}

#[test]
fn unhandled_key_is_ignored() {
    let mut s = fresh();
    let action = handle_key(&mut s, KeyKind::Press, Key::Other);
    assert!(matches!(action, LoopAction::Continue));
    assert_eq!(s.input, "");
    assert_eq!(s.messages.len(), 0);
}

#[test]
fn scroll_up_at_zero_stays_at_zero() {
    let mut s = fresh();
    let action = handle_key(&mut s, KeyKind::Press, Key::Up);
    assert!(matches!(action, LoopAction::Continue));
    assert_eq!(s.scroll, 0);
    s.adjust_scroll(-1);
    assert_eq!(s.scroll, 0);
}

#[test]
fn scroll_down_increases_one_per_press() {
    let mut s = fresh();
    for expected in 1..=40u16 {
        handle_key(&mut s, KeyKind::Press, Key::Down);
        assert_eq!(s.scroll, expected);
    }
    handle_key(&mut s, KeyKind::Press, Key::Up);
    assert_eq!(s.scroll, 39);
}

#[test]
fn adjust_scroll_clamps_below_zero() {
    let mut s = fresh();
    s.adjust_scroll(5);
    assert_eq!(s.scroll, 5);
    s.adjust_scroll(-9);
    assert_eq!(s.scroll, 0);
}

#[test]
fn take_input_drains_the_whole_buffer() {
    let mut s = fresh();
    assert!(s.take_input_for_submission().is_none());
    type_str(&mut s, "abc");
    let taken = s.take_input_for_submission();
    assert_eq!(taken.as_deref(), Some("abc"));
    assert_eq!(s.input, "");
    assert!(s.take_input_for_submission().is_none());
}

#[test]
fn scenario_reply_arrives() {
    let mut s = fresh();
    type_str(&mut s, "hi");
    handle_key(&mut s, KeyKind::Press, Key::Enter);
    assert_eq!(s.messages.len(), 1);
    assert_eq!(s.messages[0].role, Role::User);
    assert_eq!(s.messages[0].content, "hi");
    assert!(matches!(s.mode, AppMode::Processing));
    assert_eq!(s.input, "");

    s.apply_reply(Ok("hello".to_string()));
    assert_eq!(s.messages.len(), 2);
    assert_eq!(s.messages[1].role, Role::Model);
    assert_eq!(s.messages[1].content, "hello");
    assert!(matches!(s.mode, AppMode::Normal));
}

#[test]
fn scenario_transport_failure_becomes_a_turn() {
    let mut s = fresh();
    type_str(&mut s, "hi");
    handle_key(&mut s, KeyKind::Press, Key::Enter);
    s.apply_reply(Err(CompletionError::Transport("timeout".to_string())));
    assert_eq!(s.messages.len(), 2);
    assert_eq!(s.messages[1].role, Role::Model);
    assert_eq!(s.messages[1].content, "Error: timeout");
    assert!(matches!(s.mode, AppMode::Normal));
}

#[test]
fn transcript_keeps_submission_order_across_rounds() {
    let mut s = fresh();
    type_str(&mut s, "first");
    handle_key(&mut s, KeyKind::Press, Key::Enter);
    s.apply_reply(Ok("one".to_string()));
    type_str(&mut s, "second");
    handle_key(&mut s, KeyKind::Press, Key::Enter);
    s.apply_reply(Err(CompletionError::Transport("down".to_string())));

    let expected = [
        (Role::User, "first"),
        (Role::Model, "one"),
        (Role::User, "second"),
        (Role::Model, "Error: down"),
    ];
    assert_eq!(s.messages.len(), expected.len());
    for (m, (role, content)) in s.messages.iter().zip(expected.iter()) {
        assert_eq!(m.role, *role);
        assert_eq!(m.content, *content);
    }
    assert!(matches!(s.mode, AppMode::Normal));
}

#[test]
fn snapshot_preserves_order_and_role_mapping() {
    let mut s = fresh();
    s.append_turn(Role::User, "q1".to_string());
    s.append_turn(Role::Model, "a1".to_string());
    s.append_turn(Role::User, "q2".to_string());
    let req = s.snapshot_transcript_for_request();
    assert_eq!(req.len(), 3);
    let expected = [("user", "q1"), ("model", "a1"), ("user", "q2")];
    for (c, (role, text)) in req.iter().zip(expected.iter()) {
        assert_eq!(c.role, *role);
        assert_eq!(c.parts.len(), 1);
        assert_eq!(c.parts[0].text, *text);
    }
}
