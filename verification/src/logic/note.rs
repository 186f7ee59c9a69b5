//! Note operations: append and delete.

use vstd::prelude::*;

use crate::error::StoreError;
use crate::models::{Task, TaskView, strings_view};
use crate::text::{append_str, decimal, usize_to_decimal};

verus! {

/// `t` with its notes replaced by `n`.
pub open spec fn with_notes(t: TaskView, n: Seq<Seq<char>>) -> TaskView {
    TaskView { notes: n, ..t }
}

/// The message of an out-of-range note index.
pub open spec fn note_index_message(i: nat, count: nat) -> Seq<char> {
    "笔记索引 "@ + decimal(i) + " 越界（共 "@ + decimal(count) + " 条）"@
}

/// Deleting the note that was just added gives back the task as it was before
/// the addition.
pub proof fn lemma_add_then_delete_note(t: TaskView, content: Seq<char>)
    ensures
        ({
            let t2 = with_notes(t, t.notes.push(content));
            with_notes(t2, t2.notes.remove(t.notes.len() as int)) == t
        }),
{
    assert(t.notes.push(content).remove(t.notes.len() as int) =~= t.notes);
}

/// Appends a note to the task.
pub fn add_note(task: &mut Task, content: &str)
    ensures
        final(task)@ == with_notes(old(task)@, old(task)@.notes.push(content@)),
{
    task.notes.push(content.to_owned());
    assert(strings_view(final(task).notes@) =~= strings_view(old(task).notes@).push(content@));
}

/// Deletes the note at `note_index`; fails with `NotFound` (task unchanged)
/// when the index is past the end.
pub fn delete_note(task: &mut Task, note_index: usize) -> (r: Result<(), StoreError>)
    ensures
        note_index >= old(task)@.notes.len() <==> r is Err,
        r is Err ==> final(task)@ == old(task)@,
        r is Err ==> r->Err_0 is NotFound && r->Err_0->NotFound_0@ == note_index_message(
            note_index as nat,
            old(task)@.notes.len(),
        ),
        r is Ok ==> final(task)@ == with_notes(old(task)@, old(task)@.notes.remove(note_index as int)),
{
    if note_index >= task.notes.len() {
        let mut s = String::from_str("笔记索引 ");
        append_str(&mut s, usize_to_decimal(note_index).as_str());
        append_str(&mut s, " 越界（共 ");
        append_str(&mut s, usize_to_decimal(task.notes.len()).as_str());
        append_str(&mut s, " 条）");
        return Err(StoreError::NotFound(s));
    }
    let _removed = task.notes.remove(note_index);
    assert(strings_view(final(task).notes@) =~= strings_view(old(task).notes@).remove(
        note_index as int,
    ));
    Ok(())
}

} // verus!
