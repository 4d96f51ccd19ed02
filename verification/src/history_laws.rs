use vstd::prelude::*;
use crate::selection::{descending, keep_unselected, lemma_delete_keeps_unselected, lemma_remove_in_order_shrinks, positions_of};
use crate::state::{AppStateView, Snapshot, snapshot_copies};

verus! {

/// Undoing and then redoing gives back the state the user had, except
/// that the selection is empty.
pub proof fn lemma_undo_then_redo<G, C, P, S>(v: AppStateView<G, C, P, S>)
    requires
        v.undo_stack.len() > 0,
    ensures
        v.undone().redone() == (AppStateView { selected_indices: Seq::empty(), ..v }),
{
    assert(v.undone().redone().undo_stack =~= v.undo_stack);
    assert(v.undone().redone().redo_stack =~= v.redo_stack);
}

/// Redoing and then undoing gives back the state the user had, except
/// that the selection is empty.
pub proof fn lemma_redo_then_undo<G, C, P, S>(v: AppStateView<G, C, P, S>)
    requires
        v.redo_stack.len() > 0,
    ensures
        v.redone().undone() == (AppStateView { selected_indices: Seq::empty(), ..v }),
{
    assert(v.redone().undone().undo_stack =~= v.undo_stack);
    assert(v.redone().undone().redo_stack =~= v.redo_stack);
}

/// Recording an undo point adds it on top of the undo history, keeps every
/// earlier point, empties the redo history and changes nothing else.
pub proof fn lemma_record_step<G, C, P, S>(v: AppStateView<G, C, P, S>, snap: Snapshot<G, C>)
    ensures
        v.with_undo_point(snap).undo_stack.len() == v.undo_stack.len() + 1,
        v.with_undo_point(snap).undo_stack.last() == snap,
        v.with_undo_point(snap).undo_stack.drop_last() == v.undo_stack,
        v.with_undo_point(snap).redo_stack.len() == 0,
        v.with_undo_point(snap).document() == v.document(),
        v.with_undo_point(snap).selected_indices == v.selected_indices,
        v.with_undo_point(snap).active_tool == v.active_tool,
        v.with_undo_point(snap).click_buffer == v.click_buffer,
        v.with_undo_point(snap).grid_size == v.grid_size,
        v.with_undo_point(snap).grid_enabled == v.grid_enabled,
        v.with_undo_point(snap).mouse_world_pos == v.mouse_world_pos,
{
    assert(v.with_undo_point(snap).undo_stack.drop_last() =~= v.undo_stack);
}

/// Undo with no undo point changes nothing at all: the document, both
/// histories, the selection and every other part of the state stay as
/// they were.
pub proof fn lemma_undo_without_history<G, C, P, S>(v: AppStateView<G, C, P, S>)
    requires
        v.undo_stack.len() == 0,
    ensures
        v.undone() == v,
        v.undone().entities == v.entities,
        v.undone().redo_stack == v.redo_stack,
        v.undone().selected_indices == v.selected_indices,
{
}

/// Redo with nothing to redo changes nothing at all.
pub proof fn lemma_redo_without_history<G, C, P, S>(v: AppStateView<G, C, P, S>)
    requires
        v.redo_stack.len() == 0,
    ensures
        v.redone() == v,
        v.redone().entities == v.entities,
        v.redone().undo_stack == v.undo_stack,
        v.redone().selected_indices == v.selected_indices,
{
}

/// An undo step that had something to undo restores the latest undo point
/// as the document, moves the replaced document to the top of the redo
/// history, empties the selection whatever it was, and leaves the tool,
/// the clicked points and the grid alone.
pub proof fn lemma_undo_step<G, C, P, S>(v: AppStateView<G, C, P, S>)
    requires
        v.undo_stack.len() > 0,
    ensures
        v.undone().document() == v.undo_stack.last(),
        v.undone().undo_stack == v.undo_stack.drop_last(),
        v.undone().redo_stack.len() == v.redo_stack.len() + 1,
        v.undone().redo_stack.last() == v.document(),
        v.undone().redo_stack.drop_last() == v.redo_stack,
        v.undone().selected_indices.len() == 0,
        v.undone().active_tool == v.active_tool,
        v.undone().click_buffer == v.click_buffer,
        v.undone().grid_size == v.grid_size,
        v.undone().grid_enabled == v.grid_enabled,
        v.undone().mouse_world_pos == v.mouse_world_pos,
{
    assert(v.undone().redo_stack.drop_last() =~= v.redo_stack);
}

/// A redo step that had something to redo re-applies the most recently
/// undone document, moves the replaced document to the top of the undo
/// history, empties the selection whatever it was, and leaves the tool,
/// the clicked points and the grid alone.
pub proof fn lemma_redo_step<G, C, P, S>(v: AppStateView<G, C, P, S>)
    requires
        v.redo_stack.len() > 0,
    ensures
        v.redone().document() == v.redo_stack.last(),
        v.redone().redo_stack == v.redo_stack.drop_last(),
        v.redone().undo_stack.len() == v.undo_stack.len() + 1,
        v.redone().undo_stack.last() == v.document(),
        v.redone().undo_stack.drop_last() == v.undo_stack,
        v.redone().selected_indices.len() == 0,
        v.redone().active_tool == v.active_tool,
        v.redone().click_buffer == v.click_buffer,
        v.redone().grid_size == v.grid_size,
        v.redone().grid_enabled == v.grid_enabled,
        v.redone().mouse_world_pos == v.mouse_world_pos,
{
    assert(v.redone().undo_stack.drop_last() =~= v.undo_stack);
}

/// Deleting the selection changes only the entities and the selection: the
/// layers, the active layer, the histories, the tool, the clicked points
/// and the grid stay as they were; the selection ends empty and no more
/// entities remain than there were.
pub proof fn lemma_delete_touches_only_entities<G, C, P, S>(v: AppStateView<G, C, P, S>)
    ensures
        v.with_selection_removed().layers == v.layers,
        v.with_selection_removed().active_layer_index == v.active_layer_index,
        v.with_selection_removed().undo_stack == v.undo_stack,
        v.with_selection_removed().redo_stack == v.redo_stack,
        v.with_selection_removed().active_tool == v.active_tool,
        v.with_selection_removed().click_buffer == v.click_buffer,
        v.with_selection_removed().grid_size == v.grid_size,
        v.with_selection_removed().grid_enabled == v.grid_enabled,
        v.with_selection_removed().mouse_world_pos == v.mouse_world_pos,
        v.with_selection_removed().selected_indices.len() == 0,
        v.with_selection_removed().entities.len() <= v.entities.len(),
{
    lemma_remove_in_order_shrinks(v.entities, v.selected_indices.sort_by(descending()));
}

/// Recording an undo point and undoing at once brings back a copy of the
/// document, offers exactly the document that was current for redo, and
/// leaves the earlier undo points in place.
pub proof fn lemma_record_then_undo<G: Clone, C: Clone, P, S>(
    v: AppStateView<G, C, P, S>,
    snap: Snapshot<G, C>,
)
    requires
        snapshot_copies(snap, v.document()),
    ensures
        snapshot_copies(v.with_undo_point(snap).undone().document(), v.document()),
        v.with_undo_point(snap).undone().redo_stack == seq![v.document()],
        v.with_undo_point(snap).undone().undo_stack == v.undo_stack,
        v.with_undo_point(snap).undone().selected_indices.len() == 0,
{
    let w = v.with_undo_point(snap).undone();
    assert(w.redo_stack =~= seq![v.document()]);
    assert(w.undo_stack =~= v.undo_stack);
}

/// Recording an undo point leaves nothing to redo.
pub proof fn lemma_record_clears_redo<G, C, P, S>(
    v: AppStateView<G, C, P, S>,
    snap: Snapshot<G, C>,
)
    ensures
        v.with_undo_point(snap).redo_stack.len() == 0,
        v.with_undo_point(snap).redone() == v.with_undo_point(snap),
{
}

/// The history is unbounded: `k` undo steps, for any `k` up to the number
/// of undo points, bring back the `k`-th most recent undo point and keep
/// the older ones, and as many redo steps then give back the state the user
/// had (with an empty selection).
pub proof fn lemma_undo_redo_many<G, C, P, S>(v: AppStateView<G, C, P, S>, k: nat)
    requires
        1 <= k <= v.undo_stack.len(),
    ensures
        v.undone_times(k).document() == v.undo_stack[v.undo_stack.len() - k],
        v.undone_times(k).undo_stack == v.undo_stack.take(v.undo_stack.len() - k),
        v.undone_times(k).redone_times(k) == (AppStateView { selected_indices: Seq::empty(), ..v }),
    decreases k,
{
    let w = v.undone();
    assert(w.undo_stack =~= v.undo_stack.drop_last());
    lemma_undo_then_redo(v);
    if k == 1 {
        assert(v.undone_times(1) == w.undone_times(0));
        assert(w.undo_stack =~= v.undo_stack.take(v.undo_stack.len() - 1));
        assert(w.redone_times(1) == w.redone_times(0).redone());
    } else {
        lemma_undo_redo_many(w, (k - 1) as nat);
        assert(v.undone_times(k) == w.undone_times((k - 1) as nat));
        assert(w.undo_stack.take(w.undo_stack.len() - (k - 1)) =~= v.undo_stack.take(
            v.undo_stack.len() - k,
        ));
        let x = w.undone_times((k - 1) as nat);
        assert(x.redone_times(k) == x.redone_times((k - 1) as nat).redone());
        assert(x.redone_times((k - 1) as nat) == (AppStateView { selected_indices: Seq::empty(), ..w }));
        assert((AppStateView { selected_indices: Seq::empty(), ..w }) == w);
    }
}

/// Undoing right after an edit that recorded an undo point (adding an
/// entity or a layer, deleting, hiding or showing a layer, opening a file)
/// brings back the recorded copy of the document and offers the edited
/// document for redo.
pub proof fn lemma_undo_after_edit<G: Clone, C: Clone, P, S>(
    v: AppStateView<G, C, P, S>,
    snap: Snapshot<G, C>,
    edited: Snapshot<G, C>,
    selection: Seq<usize>,
)
    requires
        snapshot_copies(snap, v.document()),
    ensures
        ({
            let after_edit = AppStateView {
                selected_indices: selection,
                ..v.with_undo_point(snap).with_document(edited)
            };
            &&& snapshot_copies(after_edit.undone().document(), v.document())
            &&& after_edit.undone().redo_stack == seq![edited]
            &&& after_edit.undone().redone().document() == edited
        }),
{
    let after_edit = AppStateView {
        selected_indices: selection,
        ..v.with_undo_point(snap).with_document(edited)
    };
    assert(after_edit.undone().redo_stack =~= seq![edited]);
}

/// Undoing a deletion brings back a copy of every entity that was there,
/// in order, and offers the document after the deletion for redo.
pub proof fn lemma_delete_then_undo<G: Clone, C: Clone, P, S>(
    v: AppStateView<G, C, P, S>,
    snap: Snapshot<G, C>,
)
    requires
        snapshot_copies(snap, v.document()),
    ensures
        ({
            let deleted = v.with_undo_point(snap).with_selection_removed();
            &&& snapshot_copies(deleted.undone().document(), v.document())
            &&& deleted.undone().redo_stack == seq![deleted.document()]
            &&& deleted.undone().undo_stack == v.undo_stack
        }),
{
    let deleted = v.with_undo_point(snap).with_selection_removed();
    lemma_undo_after_edit(v, snap, deleted.document(), Seq::empty());
    assert(deleted == (AppStateView {
        selected_indices: Seq::empty(),
        ..v.with_undo_point(snap).with_document(deleted.document())
    }));
    assert(deleted.undone().undo_stack =~= v.undo_stack);
}

/// Deleting a selection in which no index occurs twice keeps exactly the
/// entities that were not selected, in their order.
pub proof fn lemma_delete_keeps_unselected_entities<G, C, P, S>(v: AppStateView<G, C, P, S>)
    requires
        v.selected_indices.no_duplicates(),
    ensures
        v.with_selection_removed().entities
            == keep_unselected(v.entities, positions_of(v.selected_indices)),
        v.with_selection_removed().selected_indices.len() == 0,
{
    lemma_delete_keeps_unselected(v.entities, v.selected_indices);
}

} // verus!
