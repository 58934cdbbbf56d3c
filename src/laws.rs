//! Properties of the editor that relate several operations or hold of
//! every state the dispatcher can reach.

use vstd::prelude::*;
use crate::editor::{column_clamped, dispatch, row_clamped, switched, AppView, InputMode, Key};

verus! {

/// Every key event keeps both lists non-empty, the row on an entry of the
/// active list, the column within or just past the text under the cursor,
/// and the edit buffer equal to that text. With `App::new` establishing
/// this, it holds of every state the dispatcher reaches.
pub proof fn lemma_dispatch_keeps_wf(v: AppView, key: Key)
    requires
        v.wf(),
    ensures
        dispatch(v, key).0.wf(),
        dispatch(v, key).0.lists.daily.len() >= 1,
        dispatch(v, key).0.lists.long_term.len() >= 1,
        0 <= dispatch(v, key).0.row < dispatch(v, key).0.active().len(),
{
}

/// A cursor move, a list switch and an entry removal leave the column
/// within `max(len - 1, 0)` of the text under the cursor.
pub proof fn lemma_navigation_bounds_column(v: AppView, key: Key)
    requires
        v.wf(),
        key is Up || key is Down || key is Left || key is Right || (v.mode == InputMode::Normal
            && (key == Key::Char('t') || key == Key::Char('r'))),
    ensures
        dispatch(v, key).0.column_in_bound(),
{
}

/// Clamping the row twice gives the same state as clamping it once.
pub proof fn lemma_clamp_row_idempotent(v: AppView)
    requires
        v.lists.wf(),
    ensures
        row_clamped(row_clamped(v)) == row_clamped(v),
{
}

/// Clamping the column twice gives the same state as clamping it once.
pub proof fn lemma_clamp_column_idempotent(v: AppView)
    requires
        v.lists.wf(),
        0 <= v.row < v.active().len(),
    ensures
        column_clamped(column_clamped(v)) == column_clamped(v),
{
}

/// Switching lists twice selects the list selected before, leaves both
/// lists as they were, and puts the cursor on row 0.
pub proof fn lemma_switch_round_trip(v: AppView)
    requires
        v.wf(),
    ensures
        switched(switched(v)).lists == v.lists,
        switched(switched(v)).row == 0,
{
}

} // verus!
