use vstd::prelude::*;

use crate::buffer::BufferView;
use crate::buffer::EditAction;
use crate::buffer::apply_edit;
use crate::buffer::flatten_lines;
use crate::buffer::lemma_flatten_lines_of;
use crate::state::EditorError;
use crate::state::Message;
use crate::state::StateView;
use crate::state::spec_update;

verus! {

/// A sequence of actions applied directly to a buffer, in order.
pub open spec fn apply_edits(b: BufferView, actions: Seq<EditAction>) -> BufferView
    decreases actions.len(),
{
    if actions.len() == 0 {
        b
    } else {
        apply_edit(apply_edits(b, actions.drop_last()), actions.last())
    }
}

/// A sequence of actions delivered to the update step as edit messages,
/// in order.
pub open spec fn run_edit_messages(s: StateView, actions: Seq<EditAction>) -> StateView
    decreases actions.len(),
{
    if actions.len() == 0 {
        s
    } else {
        spec_update(run_edit_messages(s, actions.drop_last()), Message::Edit(actions.last())).0
    }
}

/// Delegation correctness: for every sequence of edit actions, the update
/// step leaves the buffer exactly as applying the same actions directly to
/// a buffer of equal initial content would, and touches no other field.
pub proof fn lemma_edit_delegation(s: StateView, actions: Seq<EditAction>)
    ensures
        run_edit_messages(s, actions).buffer == apply_edits(s.buffer, actions),
        run_edit_messages(s, actions).path == s.path,
        run_edit_messages(s, actions).error == s.error,
    decreases actions.len(),
{
    if actions.len() > 0 {
        lemma_edit_delegation(s, actions.drop_last());
    }
}

/// A successful completion shows exactly the text that was read: the new
/// buffer spells `c`, the path is recorded, the cursor is at the buffer
/// start, and the error field keeps whatever it held.
pub proof fn lemma_successful_open_shows_the_file(s: StateView, p: String, c: String)
    ensures
        ({
            let fin = spec_update(s, Message::OpenFileCompleted(Ok((p, c)))).0;
            &&& flatten_lines(fin.buffer.lines) == c@
            &&& fin.buffer.cursor_line == 0
            &&& fin.buffer.cursor_col == 0
            &&& fin.path == Some(p@)
            &&& fin.error == s.error
        }),
{
    lemma_flatten_lines_of(c@);
}

/// A failed completion sets the error and nothing else: buffer and path
/// stay exactly as they were.
pub proof fn lemma_failed_open_changes_only_the_error(s: StateView, e: EditorError)
    ensures
        ({
            let fin = spec_update(s, Message::OpenFileCompleted(Err(e))).0;
            &&& fin.buffer == s.buffer
            &&& fin.path == s.path
            &&& fin.error == Some(e)
        }),
{
}

/// The known race, kept as designed: when two open operations are in
/// flight, the completion that arrives last determines the state; the
/// earlier successful completion leaves no trace.
pub proof fn lemma_last_completion_wins(s: StateView, p1: String, c1: String, p2: String, c2: String)
    ensures
        spec_update(
            spec_update(s, Message::OpenFileCompleted(Ok((p1, c1)))).0,
            Message::OpenFileCompleted(Ok((p2, c2))),
        ).0 == spec_update(s, Message::OpenFileCompleted(Ok((p2, c2)))).0,
{
    assert(spec_update(
        spec_update(s, Message::OpenFileCompleted(Ok((p1, c1)))).0,
        Message::OpenFileCompleted(Ok((p2, c2))),
    ).0 =~= spec_update(s, Message::OpenFileCompleted(Ok((p2, c2)))).0);
}

} // verus!
