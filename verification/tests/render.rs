use gemini_chat::app::{AppMode, AppState, Role};
use gemini_chat::ui::{input_title, transcript_lines};

#[test]
fn transcript_lines_prefix_each_turn_and_separate_them() {
    let mut s = AppState::new("k".to_string());
    s.append_turn(Role::User, "hi".to_string());
    s.append_turn(Role::Model, "hello".to_string());
    let lines = transcript_lines(&s.messages);
    assert_eq!(lines, vec!["You: hi", "", "Gemini: hello", ""]);
}

#[test]
fn transcript_lines_of_empty_transcript_are_empty() {
    let s = AppState::new("k".to_string());
    assert!(transcript_lines(&s.messages).is_empty());
}

#[test]
fn input_title_follows_the_mode() {
    assert_eq!(input_title(AppMode::Normal), "Input (Enter to send, Esc to quit)");
    assert_eq!(input_title(AppMode::Processing), "Processing...");
}
