use vstd::prelude::*;

use crate::buffer::BufferView;
use crate::buffer::EditAction;
use crate::buffer::TextBuffer;
use crate::buffer::apply_edit;
use crate::buffer::buffer_inv;
use crate::buffer::lines_of;

verus! {

/// Why an open operation failed: the user backed out of the dialog, or the
/// read itself failed for an OS-reported reason.
#[derive(Clone, Copy, PartialEq, Eq, Structural, Debug)]
pub enum EditorError {
    DialogCanceled,
    IoFailure(IoErrorKind),
}

/// The OS error category of a failed read; a classification, not a message.
#[derive(Clone, Copy, PartialEq, Eq, Structural, Debug)]
pub enum IoErrorKind {
    NotFound,
    PermissionDenied,
    InvalidData,
    Interrupted,
    Other,
}

/// One event delivered to `update`.
#[derive(Debug)]
pub enum Message {
    /// A user edit on the text area.
    Edit(EditAction),
    /// The Open button was pressed.
    OpenFileRequested,
    /// The asynchronous open resolved: either a path with the text read
    /// from it, or a classified failure.
    OpenFileCompleted(Result<(String, String), EditorError>),
}

/// The one asynchronous effect `update` can ask for: run the file-open
/// operation, whose result comes back as `OpenFileCompleted`.
#[derive(Clone, Copy, PartialEq, Eq, Structural, Debug)]
pub enum Effect {
    OpenFileDialog,
}

/// The mathematical model of the application state.
#[verifier::ext_equal]
pub struct StateView {
    pub buffer: BufferView,
    pub path: Option<Seq<char>>,
    pub error: Option<EditorError>,
}

/// A state is well formed when its buffer is.
pub open spec fn state_inv(s: StateView) -> bool {
    buffer_inv(s.buffer)
}

/// What one message does to the state, and which effect it asks for.
pub open spec fn spec_update(s: StateView, m: Message) -> (StateView, Option<Effect>) {
    match m {
        Message::Edit(a) => (StateView { buffer: apply_edit(s.buffer, a), ..s }, None),
        Message::OpenFileRequested => (s, Some(Effect::OpenFileDialog)),
        Message::OpenFileCompleted(r) => match r {
            Ok((p, c)) => (
                StateView {
                    buffer: BufferView { lines: lines_of(c@), cursor_line: 0, cursor_col: 0 },
                    path: Some(p@),
                    ..s
                },
                None,
            ),
            Err(e) => (StateView { error: Some(e), ..s }, None),
        },
    }
}

/// The single mutable entity of the program: the buffer, the path of the
/// file last opened, and the last error, read by nothing.
pub struct ApplicationState {
    pub editor_content: TextBuffer,
    pub current_file_path: Option<String>,
    pub last_error: Option<EditorError>,
}

impl View for ApplicationState {
    type V = StateView;

    open spec fn view(&self) -> StateView {
        StateView {
            buffer: self.editor_content@,
            path: match self.current_file_path {
                Some(p) => Some(p@),
                None => None,
            },
            error: self.last_error,
        }
    }
}

impl ApplicationState {
    /// The state before any file is loaded: the fallback text in the
    /// buffer, no path, no error.
    pub fn new(fallback_text: &str) -> (s: ApplicationState)
        ensures
            s@.buffer.lines == lines_of(fallback_text@),
            s@.buffer.cursor_line == 0,
            s@.buffer.cursor_col == 0,
            s@.path is None,
            s@.error is None,
            state_inv(s@),
    {
        ApplicationState {
            editor_content: TextBuffer::with_text(fallback_text),
            current_file_path: None,
            last_error: None,
        }
    }

    /// Apply one message, exactly as `spec_update` says, handing back the
    /// effect to run. Called once per event, never concurrently.
    pub fn update(&mut self, message: Message) -> (effect: Option<Effect>)
        requires
            state_inv(old(self)@),
        ensures
            final(self)@ == spec_update(old(self)@, message).0,
            effect == spec_update(old(self)@, message).1,
            state_inv(final(self)@),
    {
        match message {
            Message::Edit(action) => {
                self.editor_content.perform(action);
                proof {
                    assert(self@ =~= spec_update(old(self)@, message).0);
                }
                None
            },
            Message::OpenFileRequested => Some(Effect::OpenFileDialog),
            Message::OpenFileCompleted(Ok((path, content))) => {
                self.editor_content = TextBuffer::with_text(content.as_str());
                self.current_file_path = Some(path);
                proof {
                    assert(self@ =~= spec_update(old(self)@, message).0);
                }
                None
            },
            Message::OpenFileCompleted(Err(err)) => {
                self.last_error = Some(err);
                proof {
                    assert(self@ =~= spec_update(old(self)@, message).0);
                }
                None
            },
        }
    }
}

} // verus!
