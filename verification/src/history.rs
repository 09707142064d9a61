//! The mathematical model of the linear undo/redo history: a sequence of
//! full-text snapshots and a cursor that marks the snapshot currently shown.
//!
//! Recording a snapshot truncates everything past the cursor and appends the
//! new snapshot; undo and redo move the cursor one step and are no-ops at the
//! boundaries. The executable methods of [`crate::notepad_app::NotepadApp`]
//! promise exactly these transitions.

use vstd::prelude::*;

verus! {

/// The snapshot sequence after recording `snap` with the cursor at `cursor`:
/// everything past the cursor is discarded, then `snap` is appended.
pub open spec fn recorded(snaps: Seq<Seq<char>>, cursor: int, snap: Seq<char>) -> Seq<Seq<char>> {
    snaps.take(cursor + 1).push(snap)
}

/// The cursor after an undo: one step back, except at the first snapshot,
/// where undo is a no-op.
pub open spec fn undo_cursor(cursor: int) -> int {
    if cursor > 0 {
        cursor - 1
    } else {
        cursor
    }
}

/// The cursor after a redo in a history of `len` snapshots: one step forward,
/// except at the last snapshot, where redo is a no-op.
pub open spec fn redo_cursor(len: int, cursor: int) -> int {
    if cursor + 1 < len {
        cursor + 1
    } else {
        cursor
    }
}

/// Undo followed by redo shows the snapshot that was shown before the undo,
/// provided the history was not undone all the way back with later snapshots
/// still present (there undo is a no-op and redo moves forward instead).
/// In particular it holds at every cursor a sequence of `record` calls alone
/// can produce, since `record` always leaves the cursor on the last snapshot.
pub proof fn lemma_undo_then_redo(snaps: Seq<Seq<char>>, cursor: int)
    requires
        0 <= cursor < snaps.len(),
        cursor > 0 || cursor == snaps.len() - 1,
    ensures
        redo_cursor(snaps.len() as int, undo_cursor(cursor)) == cursor,
        snaps[redo_cursor(snaps.len() as int, undo_cursor(cursor))] == snaps[cursor],
{
}

/// Recording after an undo discards every snapshot past the cursor: the new
/// history keeps exactly the snapshots up to the cursor, ends with the new
/// snapshot, and the cursor lands on that last snapshot, so the discarded
/// snapshots are unreachable by redo (which is a no-op there).
pub proof fn lemma_record_discards_redo(snaps: Seq<Seq<char>>, cursor: int, snap: Seq<char>)
    requires
        0 <= cursor < snaps.len(),
    ensures
        recorded(snaps, cursor, snap).len() == cursor + 2,
        forall|i: int| 0 <= i <= cursor ==> recorded(snaps, cursor, snap)[i] == snaps[i],
        recorded(snaps, cursor, snap)[cursor + 1] == snap,
        redo_cursor(recorded(snaps, cursor, snap).len() as int, cursor + 1) == cursor + 1,
{
}

} // verus!
