use iced_editor::buffer::EditAction;
use iced_editor::state::ApplicationState;
use iced_editor::state::Effect;
use iced_editor::state::EditorError;
use iced_editor::state::IoErrorKind;
use iced_editor::state::Message;

fn chars(s: &str) -> Vec<char> {
    s.chars().collect()
}

fn completed_ok(path: &str, content: &str) -> Message {
    Message::OpenFileCompleted(Ok((String::from(path), String::from(content))))
}

#[test]
fn new_state_holds_fallback_text_and_nothing_else() {
    let s = ApplicationState::new("fallback");
    assert_eq!(s.editor_content.text(), chars("fallback"));
    assert_eq!(s.current_file_path, None);
    assert_eq!(s.last_error, None);
}

#[test]
fn edit_message_delegates_to_buffer_only() {
    let mut s = ApplicationState::new("");
    let e1 = s.update(Message::Edit(EditAction::Insert('h')));
    let e2 = s.update(Message::Edit(EditAction::Insert('i')));
    assert!(e1.is_none());
    assert!(e2.is_none());
    assert_eq!(s.editor_content.text(), chars("hi"));
    assert_eq!(s.editor_content.cursor_position(), (0, 2));
    assert_eq!(s.current_file_path, None);
    assert_eq!(s.last_error, None);
}

#[test]
fn open_requested_asks_for_the_dialog_and_changes_nothing() {
    let mut s = ApplicationState::new("kept");
    let effect = s.update(Message::OpenFileRequested);
    assert_eq!(effect, Some(Effect::OpenFileDialog));
    assert_eq!(s.editor_content.text(), chars("kept"));
    assert_eq!(s.current_file_path, None);
    assert_eq!(s.last_error, None);
}

#[test]
fn completed_ok_replaces_content_and_sets_path() {
    let mut s = ApplicationState::new("prior text");
    s.update(Message::Edit(EditAction::Insert('x')));
    let effect = s.update(completed_ok("/tmp/a.txt", "hello"));
    assert!(effect.is_none());
    assert_eq!(s.editor_content.text(), chars("hello"));
    assert_eq!(s.editor_content.cursor_position(), (0, 0));
    assert_eq!(s.current_file_path, Some(String::from("/tmp/a.txt")));
    assert_eq!(s.last_error, None);
}

#[test]
fn dialog_canceled_sets_only_the_error() {
    let mut s = ApplicationState::new("kept");
    let effect = s.update(Message::OpenFileCompleted(Err(EditorError::DialogCanceled)));
    assert!(effect.is_none());
    assert_eq!(s.last_error, Some(EditorError::DialogCanceled));
    assert_eq!(s.editor_content.text(), chars("kept"));
    assert_eq!(s.editor_content.cursor_position(), (0, 0));
    assert_eq!(s.current_file_path, None);
}

#[test]
fn missing_file_sets_only_the_error() {
    let mut s = ApplicationState::new("kept");
    let effect = s.update(Message::OpenFileCompleted(Err(EditorError::IoFailure(
        IoErrorKind::NotFound,
    ))));
    assert!(effect.is_none());
    assert_eq!(s.last_error, Some(EditorError::IoFailure(IoErrorKind::NotFound)));
    assert_eq!(s.editor_content.text(), chars("kept"));
    assert_eq!(s.current_file_path, None);
}

#[test]
fn error_survives_a_later_successful_open() {
    let mut s = ApplicationState::new("");
    s.update(Message::OpenFileCompleted(Err(EditorError::DialogCanceled)));
    s.update(completed_ok("/tmp/b.txt", "later"));
    assert_eq!(s.last_error, Some(EditorError::DialogCanceled));
    assert_eq!(s.editor_content.text(), chars("later"));
    assert_eq!(s.current_file_path, Some(String::from("/tmp/b.txt")));
}

#[test]
fn last_completion_wins_the_race() {
    let mut s = ApplicationState::new("");
    s.update(Message::OpenFileRequested);
    s.update(Message::OpenFileRequested);
    s.update(completed_ok("/tmp/first.txt", "first"));
    s.update(completed_ok("/tmp/second.txt", "second"));
    assert_eq!(s.editor_content.text(), chars("second"));
    assert_eq!(s.current_file_path, Some(String::from("/tmp/second.txt")));
    assert_eq!(s.last_error, None);
}
