use vstd::prelude::*;

use crate::buffer::flatten_lines;
use crate::digits::decimal;
use crate::digits::decimal_string;
use crate::state::ApplicationState;
use crate::state::Message;
use crate::state::state_inv;

verus! {

/// The status bar's left label: the current file's path, or "New File"
/// before any file is opened.
pub open spec fn left_label_spec(path: Option<Seq<char>>) -> Seq<char> {
    match path {
        Some(p) => p,
        None => "New File"@,
    }
}

/// The status bar's right label: "line:column", 1-based, from the buffer's
/// 0-based cursor.
pub open spec fn cursor_label_spec(line: int, col: int) -> Seq<char> {
    decimal(line + 1) + seq![':'] + decimal(col + 1)
}

/// The widget tree that one state renders to: a vertical stack of control
/// bar, text area and status bar, described as plain values.
pub struct WidgetTree {
    /// The control bar's one button.
    pub open_button_label: String,
    /// The message that pressing the button yields.
    pub open_button_message: Message,
    /// The text the editing area shows.
    pub editor_text: Vec<char>,
    pub status_left: String,
    pub status_right: String,
}

/// The left label as shown: the path's display form, or "New File".
pub fn left_label(path: &Option<String>) -> (s: String)
    ensures
        s@ == left_label_spec(match *path {
            Some(p) => Some(p@),
            None => None,
        }),
{
    match path {
        Some(p) => p.clone(),
        None => String::from_str("New File"),
    }
}

/// The right label as shown: "line:column", 1-based, from the 0-based
/// cursor pair.
pub fn cursor_label(line: usize, col: usize) -> (s: String)
    ensures
        s@ == cursor_label_spec(line as int, col as int),
{
    let mut s = decimal_string(line as u128 + 1);
    let colon = ":";
    proof {
        reveal_strlit(":");
        assert(colon@ =~= seq![':']);
    }
    s.append(colon);
    let col_text = decimal_string(col as u128 + 1);
    s.append(col_text.as_str());
    s
}

/// Build the widget tree for a state: a pure function, no mutation, no
/// side effect.
pub fn render(state: &ApplicationState) -> (w: WidgetTree)
    requires
        state_inv(state@),
    ensures
        w.open_button_label@ == "Open"@,
        w.open_button_message is OpenFileRequested,
        w.editor_text@ == flatten_lines(state@.buffer.lines),
        w.status_left@ == left_label_spec(state@.path),
        w.status_right@ == cursor_label_spec(state@.buffer.cursor_line, state@.buffer.cursor_col),
{
    let (line, col) = state.editor_content.cursor_position();
    WidgetTree {
        open_button_label: String::from_str("Open"),
        open_button_message: Message::OpenFileRequested,
        editor_text: state.editor_content.text(),
        status_left: left_label(&state.current_file_path),
        status_right: cursor_label(line, col),
    }
}

} // verus!
