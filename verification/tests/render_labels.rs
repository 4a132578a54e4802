use iced_editor::buffer::EditAction;
use iced_editor::digits::decimal_string;
use iced_editor::state::ApplicationState;
use iced_editor::state::Message;
use iced_editor::title;
use iced_editor::view::render;

fn chars(s: &str) -> Vec<char> {
    s.chars().collect()
}

#[test]
fn window_title_is_constant() {
    assert_eq!(title(), "iced editor");
}

#[test]
fn left_label_reads_new_file_before_any_open() {
    let s = ApplicationState::new("anything");
    let w = render(&s);
    assert_eq!(w.status_left, "New File");
}

#[test]
fn left_label_shows_the_opened_path() {
    let mut s = ApplicationState::new("");
    s.update(Message::OpenFileCompleted(Ok((
        String::from("/home/me/notes.txt"),
        String::from("x"),
    ))));
    let w = render(&s);
    assert_eq!(w.status_left, "/home/me/notes.txt");
}

#[test]
fn right_label_at_buffer_start_is_one_one() {
    let s = ApplicationState::new("some\ntext");
    let w = render(&s);
    assert_eq!(w.status_right, "1:1");
}

#[test]
fn right_label_is_one_based_five_ten() {
    let mut s = ApplicationState::new("aaaaaaaaaa\nbbbbbbbbbb\ncccccccccc\ndddddddddd\neeeeeeeeee");
    for _ in 0..4 {
        s.update(Message::Edit(EditAction::MoveDown));
    }
    for _ in 0..9 {
        s.update(Message::Edit(EditAction::MoveRight));
    }
    assert_eq!(s.editor_content.cursor_position(), (4, 9));
    let w = render(&s);
    assert_eq!(w.status_right, "5:10");
}

#[test]
fn open_button_is_labeled_open_and_requests_the_open() {
    let s = ApplicationState::new("");
    let w = render(&s);
    assert_eq!(w.open_button_label, "Open");
    assert!(matches!(w.open_button_message, Message::OpenFileRequested));
}

#[test]
fn editor_area_shows_the_buffer_text() {
    let mut s = ApplicationState::new("ab");
    s.update(Message::Edit(EditAction::MoveEnd));
    s.update(Message::Edit(EditAction::Enter));
    s.update(Message::Edit(EditAction::Insert('c')));
    let w = render(&s);
    assert_eq!(w.editor_text, chars("ab\nc"));
}

#[test]
fn decimal_strings_are_exact() {
    assert_eq!(decimal_string(0), "0");
    assert_eq!(decimal_string(7), "7");
    assert_eq!(decimal_string(10), "10");
    assert_eq!(decimal_string(42), "42");
    assert_eq!(decimal_string(1000), "1000");
}
