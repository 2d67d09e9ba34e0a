use vstd::prelude::*;

use crate::buffer::EditAction;
use crate::editor::{initial_model, next, path_view, run, task_matches, last_error, EditorModel, Error, FileOp, Message, Task};

verus! {

/// The state after each action of `edits` in turn, applied as `Edit` messages.
pub open spec fn run_edits(s: EditorModel, edits: Seq<EditAction>) -> EditorModel
    decreases edits.len(),
{
    if edits.len() == 0 {
        s
    } else {
        run_edits(next(s, Message::Edit(edits[0])), edits.skip(1))
    }
}

/// A run of edits that holds at least one change of the text leaves the document dirty.
pub proof fn lemma_edits_make_dirty(s: EditorModel, edits: Seq<EditAction>)
    requires
        exists|i: int| 0 <= i < edits.len() && (#[trigger] edits[i]).spec_is_edit(),
    ensures
        run_edits(s, edits).dirty,
    decreases edits.len(),
{
    let i = choose|i: int| 0 <= i < edits.len() && (#[trigger] edits[i]).spec_is_edit();
    if i == 0 {
        lemma_edits_keep_dirty(next(s, Message::Edit(edits[0])), edits.skip(1));
    } else {
        assert(edits.skip(1)[i - 1] == edits[i]);
        lemma_edits_make_dirty(next(s, Message::Edit(edits[0])), edits.skip(1));
    }
}

/// Edits never make a dirty document clean.
pub proof fn lemma_edits_keep_dirty(s: EditorModel, edits: Seq<EditAction>)
    requires
        s.dirty,
    ensures
        run_edits(s, edits).dirty,
    decreases edits.len(),
{
    if edits.len() > 0 {
        lemma_edits_keep_dirty(next(s, Message::Edit(edits[0])), edits.skip(1));
    }
}

/// A dirty document stays dirty through any messages until a save succeeds.
pub proof fn lemma_dirty_until_saved(s: EditorModel, msgs: Seq<Message>)
    requires
        s.dirty,
        forall|i: int| 0 <= i < msgs.len() ==> !((#[trigger] msgs[i]) matches Message::FileSave(Ok(_))),
    ensures
        run(s, msgs).dirty,
    decreases msgs.len(),
{
    if msgs.len() > 0 {
        assert(!(msgs[0] matches Message::FileSave(Ok(_))));
        assert forall|i: int| 0 <= i < msgs.skip(1).len() implies !((#[trigger] msgs.skip(1)[i]) matches Message::FileSave(Ok(_))) by {
            assert(msgs.skip(1)[i] == msgs[i + 1]);
        }
        lemma_dirty_until_saved(next(s, msgs[0]), msgs.skip(1));
    }
}

/// `New` gives an untitled, empty, dirty document with no error, whatever came before.
pub proof fn lemma_new_resets(s: EditorModel)
    ensures
        next(s, Message::New) == initial_model(),
        next(s, Message::New).path is None,
        next(s, Message::New).buffer.text.len() == 0,
        next(s, Message::New).dirty == initial_model().dirty,
        next(s, Message::New).error is None,
{
}

/// A successful save leaves the document clean and associated with the path written;
/// where the document already had that path, the path is kept.
pub proof fn lemma_save_succeeds(s: EditorModel, p: String)
    ensures
        next(s, Message::FileSave(Ok(p))).path == Some(p@),
        !next(s, Message::FileSave(Ok(p))).dirty,
        next(s, Message::FileSave(Ok(p))).buffer == s.buffer,
        s.path == Some(p@) ==> next(s, Message::FileSave(Ok(p))).path == s.path,
{
}

/// A failed load or save records the error and leaves buffer, path and dirty flag alone.
/// A closed dialog is one such failure.
pub proof fn lemma_failure_keeps_document(s: EditorModel, e: Error)
    ensures
        next(s, Message::FileOpened(Err(e))) == (EditorModel { error: Some((FileOp::Open, e)), ..s }),
        next(s, Message::FileSave(Err(e))) == (EditorModel { error: Some((FileOp::Save, e)), ..s }),
{
}

/// A successful open clears any error; a successful save clears an error that a save left
/// and keeps one that an open left; edits never touch the error.
pub proof fn lemma_success_clears_own_error(s: EditorModel, p: String, c: Vec<char>, a: EditAction)
    ensures
        last_error(next(s, Message::FileOpened(Ok((p, c))))) is None,
        s.error matches Some((FileOp::Save, _)) ==> last_error(next(s, Message::FileSave(Ok(p)))) is None,
        s.error matches Some((FileOp::Open, _)) ==> next(s, Message::FileSave(Ok(p))).error == s.error,
        next(s, Message::Edit(a)).error == s.error,
{
}

/// Saving a clean document twice to its own path writes the same text to the same path
/// both times and ends as saving it once; loading what was written gives the same text back.
pub proof fn lemma_save_idempotent(s: EditorModel, p: String, loaded: Vec<char>, first: Task, second: Task)
    requires
        !s.dirty,
        s.path == Some(p@),
        loaded@ == s.buffer.text,
        task_matches(s, Message::Save, first),
        task_matches(next(next(s, Message::Save), Message::FileSave(Ok(p))), Message::Save, second),
    ensures
        first matches Task::Save { path, text } && path_view(path) == Some(p@) && text@ == s.buffer.text,
        second matches Task::Save { path, text } && path_view(path) == Some(p@) && text@ == s.buffer.text,
        next(next(s, Message::FileSave(Ok(p))), Message::FileSave(Ok(p)))
            == next(s, Message::FileSave(Ok(p))),
        next(s, Message::Save) == s,
        next(next(s, Message::FileSave(Ok(p))), Message::FileOpened(Ok((p, loaded)))).buffer.text
            == s.buffer.text,
{
}

} // verus!
