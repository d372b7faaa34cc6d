use selthi::events::Key;
use selthi::events::TermEvent;
use selthi::input::EditState;
use selthi::input::Input;
use selthi::input::InputOutcome;
use selthi::input::DEFAULT_MINIMUM_CHAR;

fn type_str(state: &mut EditState, text: &str) {
    for c in text.chars() {
        let out = state.handle_key(Key::Char(c), false);
        assert_eq!(out, InputOutcome::Active);
    }
}

#[test]
fn input_new_defaults() {
    let input = Input::new("What's your name?");
    assert_eq!(input.message, "What's your name?");
    assert_eq!(input.minimum_chars, DEFAULT_MINIMUM_CHAR);
    assert_eq!(input.minimum_chars, 0);
}

#[test]
fn input_with_minimum_chars() {
    let input = Input::new("q").with_minimum_chars(5);
    assert_eq!(input.minimum_chars, 5);
    assert_eq!(input.message, "q");
}

#[test]
fn begin_starts_empty_after_message() {
    let state = Input::new("hi").begin();
    assert_eq!(state.buffer.len(), 0);
    assert_eq!(state.offset, 0);
    assert_eq!(state.message_len, 2);
    assert_eq!(state.screen_cursor_column(), 3);
}

#[test]
fn message_length_counts_characters_not_bytes() {
    let state = Input::new("héllo ✓").begin();
    assert_eq!(state.message_len, 7);
}

#[test]
fn typing_advances_cursor_column() {
    let mut state = Input::new("name:").begin();
    type_str(&mut state, "ab");
    assert_eq!(state.buffer, vec!['a', 'b']);
    assert_eq!(state.offset, 2);
    assert_eq!(state.screen_cursor_column(), 5 + 1 + 2);
}

#[test]
fn cursor_clamps_at_both_ends() {
    let mut state = Input::new("m").begin();
    // left of the first editable column: nothing moves
    state.move_left();
    assert_eq!(state.offset, 0);
    assert_eq!(state.screen_cursor_column(), 2);
    type_str(&mut state, "xy");
    // right of one-past the last character: nothing moves
    state.move_right();
    assert_eq!(state.offset, 2);
    assert_eq!(state.screen_cursor_column(), 4);
    state.move_left();
    state.move_left();
    state.move_left();
    assert_eq!(state.offset, 0);
    assert_eq!(state.screen_cursor_column(), 2);
    state.move_right();
    assert_eq!(state.offset, 1);
}

#[test]
fn delete_on_empty_buffer_is_noop() {
    let mut state = Input::new("m").begin();
    state.delete_char();
    assert_eq!(state.buffer.len(), 0);
    assert_eq!(state.offset, 0);
}

#[test]
fn delete_at_leftmost_column_is_noop() {
    let mut state = Input::new("m").begin();
    type_str(&mut state, "ab");
    state.move_left();
    state.move_left();
    state.delete_char();
    assert_eq!(state.buffer, vec!['a', 'b']);
    assert_eq!(state.offset, 0);
}

#[test]
fn insert_then_delete_restores_buffer_and_cursor() {
    let mut state = Input::new("m").begin();
    type_str(&mut state, "abc");
    state.move_left();
    let before_buffer = state.buffer.clone();
    let before_offset = state.offset;
    state.insert_char('z');
    assert_eq!(state.buffer, vec!['a', 'b', 'z', 'c']);
    state.delete_char();
    assert_eq!(state.buffer, before_buffer);
    assert_eq!(state.offset, before_offset);
}

#[test]
fn delete_removes_left_of_cursor() {
    let mut state = Input::new("m").begin();
    type_str(&mut state, "abc");
    state.move_left();
    let out = state.handle_key(Key::Backspace, false);
    assert_eq!(out, InputOutcome::Active);
    assert_eq!(state.buffer, vec!['a', 'c']);
    assert_eq!(state.offset, 1);
    let out = state.handle_key(Key::Delete, false);
    assert_eq!(out, InputOutcome::Active);
    assert_eq!(state.buffer, vec!['c']);
    assert_eq!(state.offset, 0);
}

#[test]
fn submit_trims_and_accepts_when_long_enough() {
    let mut state = Input::new("m").with_minimum_chars(2).begin();
    type_str(&mut state, "  ab  ");
    let out = state.handle_key(Key::Enter, false);
    assert_eq!(out, InputOutcome::Confirmed(vec!['a', 'b']));
}

#[test]
fn submit_rejects_short_trimmed_answer_and_editing_continues() {
    let mut state = Input::new("m").with_minimum_chars(2).begin();
    type_str(&mut state, " a ");
    let out = state.handle_key(Key::Enter, false);
    assert_eq!(out, InputOutcome::Active);
    assert_eq!(state.buffer, vec![' ', 'a', ' ']);
    // one more character and the same submission succeeds
    type_str(&mut state, "b");
    let out = state.handle_key(Key::Enter, false);
    assert_eq!(out, InputOutcome::Confirmed(vec!['a', ' ', 'b']));
}

#[test]
fn interior_whitespace_counts_toward_minimum() {
    let mut state = Input::new("m").with_minimum_chars(3).begin();
    type_str(&mut state, " a b ");
    let out = state.handle_key(Key::Enter, false);
    assert_eq!(out, InputOutcome::Confirmed(vec!['a', ' ', 'b']));
}

#[test]
fn submit_trims_tabs_and_newlines() {
    let mut state = Input::new("m").begin();
    type_str(&mut state, "\t\nok\u{a0} ");
    match state.submit() {
        Some(answer) => assert_eq!(answer, vec!['o', 'k']),
        None => panic!("submission with no minimum must succeed"),
    }
}

#[test]
fn all_whitespace_submits_empty_when_no_minimum() {
    let mut state = Input::new("m").begin();
    type_str(&mut state, "   ");
    let out = state.handle_key(Key::Enter, false);
    assert_eq!(out, InputOutcome::Confirmed(vec![]));
}

#[test]
fn all_whitespace_rejected_under_minimum() {
    let mut state = Input::new("m").with_minimum_chars(1).begin();
    type_str(&mut state, "   ");
    assert_eq!(state.submit(), None);
}

#[test]
fn escape_cancels_input() {
    let mut state = Input::new("m").begin();
    type_str(&mut state, "abc");
    let out = state.handle_key(Key::Esc, false);
    assert_eq!(out, InputOutcome::Cancelled);
}

#[test]
fn control_c_cancels_input() {
    let mut state = Input::new("m").begin();
    let out = state.handle_key(Key::Char('c'), true);
    assert_eq!(out, InputOutcome::Cancelled);
    // a plain 'c' is just typed
    let mut state = Input::new("m").begin();
    let out = state.handle_key(Key::Char('c'), false);
    assert_eq!(out, InputOutcome::Active);
    assert_eq!(state.buffer, vec!['c']);
}

#[test]
fn unexpected_events_cancel_input() {
    let mut state = Input::new("m").begin();
    assert_eq!(state.handle_event(TermEvent::Resize), InputOutcome::Cancelled);
    let mut state = Input::new("m").begin();
    assert_eq!(state.handle_event(TermEvent::Other), InputOutcome::Cancelled);
    let mut state = Input::new("m").begin();
    let out = state.handle_event(TermEvent::Key { key: Key::Char('x'), ctrl: false });
    assert_eq!(out, InputOutcome::Active);
    assert_eq!(state.buffer, vec!['x']);
}

#[test]
fn ignored_keys_change_nothing() {
    let mut state = Input::new("m").begin();
    type_str(&mut state, "ab");
    let out = state.handle_key(Key::Up, false);
    assert_eq!(out, InputOutcome::Active);
    let out = state.handle_key(Key::Other, false);
    assert_eq!(out, InputOutcome::Active);
    assert_eq!(state.buffer, vec!['a', 'b']);
    assert_eq!(state.offset, 2);
}
