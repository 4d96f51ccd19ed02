use vstd::prelude::*;
use crate::domain::{Entity, Layer, entity_cloned, layer_cloned};
use crate::selection::{descending, remove_in_order, remove_positions, sort_descending};
use crate::tools::Tool;

verus! {

/// A saved copy of the document: entities, layers and the active layer.
pub struct UndoState<G, C> {
    pub entities: Vec<Entity<G, C>>,
    pub layers: Vec<Layer<C>>,
    pub active_layer_index: usize,
}

/// The mathematical content of a document or of an undo point.
pub struct Snapshot<G, C> {
    pub entities: Seq<Entity<G, C>>,
    pub layers: Seq<Layer<C>>,
    pub active_layer_index: usize,
}

impl<G, C> View for UndoState<G, C> {
    type V = Snapshot<G, C>;

    open spec fn view(&self) -> Snapshot<G, C> {
        Snapshot {
            entities: self.entities@,
            layers: self.layers@,
            active_layer_index: self.active_layer_index,
        }
    }
}

/// `copy` holds clones of the entities and layers of `doc`, in the same
/// order, and the same active layer.
pub open spec fn snapshot_copies<G: Clone, C: Clone>(copy: Snapshot<G, C>, doc: Snapshot<G, C>) -> bool {
    &&& copy.entities.len() == doc.entities.len()
    &&& forall|i: int| 0 <= i < doc.entities.len()
        ==> #[trigger] entity_cloned(doc.entities[i], copy.entities[i])
    &&& copy.layers.len() == doc.layers.len()
    &&& forall|i: int| 0 <= i < doc.layers.len()
        ==> #[trigger] layer_cloned(doc.layers[i], copy.layers[i])
    &&& copy.active_layer_index == doc.active_layer_index
}

/// The editor state: the document, the interaction state and the history.
/// `G` is the geometry type of entities, `C` the colour type, `P` the
/// type of a point in world coordinates and `S` the type of a length.
pub struct AppState<G, C, P, S> {
    pub entities: Vec<Entity<G, C>>,
    pub layers: Vec<Layer<C>>,
    pub active_layer_index: usize,
    pub active_tool: Tool,
    pub click_buffer: Vec<P>,
    pub selected_indices: Vec<usize>,
    pub undo_stack: Vec<UndoState<G, C>>,
    pub redo_stack: Vec<UndoState<G, C>>,
    pub grid_size: S,
    pub grid_enabled: bool,
    pub mouse_world_pos: P,
}

/// The mathematical content of an `AppState`.
pub struct AppStateView<G, C, P, S> {
    pub entities: Seq<Entity<G, C>>,
    pub layers: Seq<Layer<C>>,
    pub active_layer_index: usize,
    pub active_tool: Tool,
    pub click_buffer: Seq<P>,
    pub selected_indices: Seq<usize>,
    pub undo_stack: Seq<Snapshot<G, C>>,
    pub redo_stack: Seq<Snapshot<G, C>>,
    pub grid_size: S,
    pub grid_enabled: bool,
    pub mouse_world_pos: P,
}

impl<G, C, P, S> View for AppState<G, C, P, S> {
    type V = AppStateView<G, C, P, S>;

    open spec fn view(&self) -> AppStateView<G, C, P, S> {
        AppStateView {
            entities: self.entities@,
            layers: self.layers@,
            active_layer_index: self.active_layer_index,
            active_tool: self.active_tool,
            click_buffer: self.click_buffer@,
            selected_indices: self.selected_indices@,
            undo_stack: self.undo_stack@.map_values(|u: UndoState<G, C>| u@),
            redo_stack: self.redo_stack@.map_values(|u: UndoState<G, C>| u@),
            grid_size: self.grid_size,
            grid_enabled: self.grid_enabled,
            mouse_world_pos: self.mouse_world_pos,
        }
    }
}

impl<G, C, P, S> AppStateView<G, C, P, S> {
    /// The document part of the state.
    pub open spec fn document(self) -> Snapshot<G, C> {
        Snapshot {
            entities: self.entities,
            layers: self.layers,
            active_layer_index: self.active_layer_index,
        }
    }

    /// The state with its document replaced by `doc`.
    pub open spec fn with_document(self, doc: Snapshot<G, C>) -> Self {
        AppStateView {
            entities: doc.entities,
            layers: doc.layers,
            active_layer_index: doc.active_layer_index,
            ..self
        }
    }

    /// The state after `snap` was recorded as the latest undo point, every
    /// earlier point being kept, and the redo history was emptied.
    pub open spec fn with_undo_point(self, snap: Snapshot<G, C>) -> Self {
        AppStateView {
            undo_stack: self.undo_stack.push(snap),
            redo_stack: Seq::empty(),
            ..self
        }
    }

    /// The state after one undo step.
    pub open spec fn undone(self) -> Self {
        if self.undo_stack.len() == 0 {
            self
        } else {
            AppStateView {
                undo_stack: self.undo_stack.drop_last(),
                redo_stack: self.redo_stack.push(self.document()),
                selected_indices: Seq::empty(),
                ..self.with_document(self.undo_stack.last())
            }
        }
    }

    /// The state after one redo step.
    pub open spec fn redone(self) -> Self {
        if self.redo_stack.len() == 0 {
            self
        } else {
            AppStateView {
                undo_stack: self.undo_stack.push(self.document()),
                redo_stack: self.redo_stack.drop_last(),
                selected_indices: Seq::empty(),
                ..self.with_document(self.redo_stack.last())
            }
        }
    }

    /// The state after the selected entities were removed, in descending
    /// order of their indices, and the selection was cleared.
    pub open spec fn with_selection_removed(self) -> Self {
        AppStateView {
            entities: remove_in_order(self.entities, self.selected_indices.sort_by(descending())),
            selected_indices: Seq::empty(),
            ..self
        }
    }

    /// The state after `k` undo steps.
    pub open spec fn undone_times(self, k: nat) -> Self
        decreases k,
    {
        if k == 0 {
            self
        } else {
            self.undone().undone_times((k - 1) as nat)
        }
    }

    /// The state after `k` redo steps.
    pub open spec fn redone_times(self, k: nat) -> Self
        decreases k,
    {
        if k == 0 {
            self
        } else {
            self.redone_times((k - 1) as nat).redone()
        }
    }
}

/// Clones of the entities of `v`, in order.
fn copy_entities<G: Clone, C: Clone>(v: &Vec<Entity<G, C>>) -> (res: Vec<Entity<G, C>>)
    ensures
        res.len() == v.len(),
        forall|i: int| 0 <= i < v.len() ==> #[trigger] entity_cloned(v@[i], res@[i]),
{
    let mut res: Vec<Entity<G, C>> = Vec::new();
    for i in 0..v.len()
        invariant
            res.len() == i,
            forall|j: int| 0 <= j < i ==> #[trigger] entity_cloned(v@[j], res@[j]),
    {
        res.push(v[i].clone());
    }
    res
}

/// Clones of the layers of `v`, in order.
fn copy_layers<C: Clone>(v: &Vec<Layer<C>>) -> (res: Vec<Layer<C>>)
    ensures
        res.len() == v.len(),
        forall|i: int| 0 <= i < v.len() ==> #[trigger] layer_cloned(v@[i], res@[i]),
{
    let mut res: Vec<Layer<C>> = Vec::new();
    for i in 0..v.len()
        invariant
            res.len() == i,
            forall|j: int| 0 <= j < i ==> #[trigger] layer_cloned(v@[j], res@[j]),
    {
        res.push(v[i].clone());
    }
    res
}

impl<G: Clone, C: Clone, P, S> AppState<G, C, P, S> {
    /// Records the current document as an undo point and forgets the redo
    /// history.
    pub fn push_undo(&mut self)
        ensures
            final(self)@.undo_stack.len() > 0,
            snapshot_copies(final(self)@.undo_stack.last(), old(self)@.document()),
            final(self)@ == old(self)@.with_undo_point(final(self)@.undo_stack.last()),
            final(self)@.undo_stack.drop_last() == old(self)@.undo_stack,
            final(self)@.redo_stack.len() == 0,
            final(self)@.entities == old(self)@.entities,
            final(self)@.layers == old(self)@.layers,
            final(self)@.active_layer_index == old(self)@.active_layer_index,
            final(self)@.selected_indices == old(self)@.selected_indices,
            final(self)@.active_tool == old(self)@.active_tool,
            final(self)@.click_buffer == old(self)@.click_buffer,
            final(self)@.grid_size == old(self)@.grid_size,
            final(self)@.grid_enabled == old(self)@.grid_enabled,
            final(self)@.mouse_world_pos == old(self)@.mouse_world_pos,
    {
        let snapshot = UndoState {
            entities: copy_entities(&self.entities),
            layers: copy_layers(&self.layers),
            active_layer_index: self.active_layer_index,
        };
        let ghost snap = snapshot@;
        self.undo_stack.push(snapshot);
        self.redo_stack.clear();
        assert(self@.undo_stack =~= old(self)@.with_undo_point(snap).undo_stack);
        assert(self@.redo_stack =~= Seq::<Snapshot<G, C>>::empty());
    }
    /// Restores the most recent undo point, saving the current document
    /// for redo and clearing the selection; does nothing when there is no
    /// undo point.
    pub fn undo(&mut self)
        ensures
            final(self)@ == old(self)@.undone(),
            old(self)@.undo_stack.len() == 0 ==> final(self)@ == old(self)@,
            old(self)@.undo_stack.len() > 0 ==> {
                &&& final(self)@.entities == old(self)@.undo_stack.last().entities
                &&& final(self)@.layers == old(self)@.undo_stack.last().layers
                &&& final(self)@.active_layer_index == old(self)@.undo_stack.last().active_layer_index
                &&& final(self)@.undo_stack == old(self)@.undo_stack.drop_last()
                &&& final(self)@.redo_stack == old(self)@.redo_stack.push(old(self)@.document())
                &&& final(self)@.selected_indices.len() == 0
                &&& final(self)@.active_tool == old(self)@.active_tool
                &&& final(self)@.click_buffer == old(self)@.click_buffer
                &&& final(self)@.grid_size == old(self)@.grid_size
                &&& final(self)@.grid_enabled == old(self)@.grid_enabled
                &&& final(self)@.mouse_world_pos == old(self)@.mouse_world_pos
            },
    {
        if let Some(prev) = self.undo_stack.pop() {
            let UndoState { mut entities, mut layers, mut active_layer_index } = prev;
            std::mem::swap(&mut self.entities, &mut entities);
            std::mem::swap(&mut self.layers, &mut layers);
            std::mem::swap(&mut self.active_layer_index, &mut active_layer_index);
            let current = UndoState { entities, layers, active_layer_index };
            self.redo_stack.push(current);
            self.selected_indices.clear();
            assert(self@.undo_stack =~= old(self)@.undone().undo_stack);
            assert(self@.redo_stack =~= old(self)@.undone().redo_stack);
        }
    }

    /// Re-applies the most recently undone document, saving the current
    /// document as an undo point and clearing the selection; does nothing
    /// when there is nothing to redo.
    pub fn redo(&mut self)
        ensures
            final(self)@ == old(self)@.redone(),
            old(self)@.redo_stack.len() == 0 ==> final(self)@ == old(self)@,
            old(self)@.redo_stack.len() > 0 ==> {
                &&& final(self)@.entities == old(self)@.redo_stack.last().entities
                &&& final(self)@.layers == old(self)@.redo_stack.last().layers
                &&& final(self)@.active_layer_index == old(self)@.redo_stack.last().active_layer_index
                &&& final(self)@.redo_stack == old(self)@.redo_stack.drop_last()
                &&& final(self)@.undo_stack == old(self)@.undo_stack.push(old(self)@.document())
                &&& final(self)@.selected_indices.len() == 0
                &&& final(self)@.active_tool == old(self)@.active_tool
                &&& final(self)@.click_buffer == old(self)@.click_buffer
                &&& final(self)@.grid_size == old(self)@.grid_size
                &&& final(self)@.grid_enabled == old(self)@.grid_enabled
                &&& final(self)@.mouse_world_pos == old(self)@.mouse_world_pos
            },
    {
        if let Some(next) = self.redo_stack.pop() {
            let UndoState { mut entities, mut layers, mut active_layer_index } = next;
            std::mem::swap(&mut self.entities, &mut entities);
            std::mem::swap(&mut self.layers, &mut layers);
            std::mem::swap(&mut self.active_layer_index, &mut active_layer_index);
            let current = UndoState { entities, layers, active_layer_index };
            self.undo_stack.push(current);
            self.selected_indices.clear();
            assert(self@.undo_stack =~= old(self)@.redone().undo_stack);
            assert(self@.redo_stack =~= old(self)@.redone().redo_stack);
        }
    }
    /// Deletes the selected entities after recording an undo point, and
    /// clears the selection; does nothing when nothing is selected.
    pub fn delete_selected(&mut self)
        ensures
            old(self)@.selected_indices.len() == 0 ==> final(self)@ == old(self)@,
            old(self)@.selected_indices.len() > 0 ==> {
                &&& final(self)@.undo_stack.len() > 0
                &&& snapshot_copies(final(self)@.undo_stack.last(), old(self)@.document())
                &&& final(self)@ == old(self)@.with_undo_point(
                    final(self)@.undo_stack.last(),
                ).with_selection_removed()
                &&& final(self)@.entities == remove_in_order(
                    old(self)@.entities,
                    old(self)@.selected_indices.sort_by(descending()),
                )
                &&& final(self)@.selected_indices.len() == 0
                &&& final(self)@.undo_stack.drop_last() == old(self)@.undo_stack
                &&& final(self)@.redo_stack.len() == 0
                &&& final(self)@.layers == old(self)@.layers
                &&& final(self)@.active_layer_index == old(self)@.active_layer_index
                &&& final(self)@.active_tool == old(self)@.active_tool
                &&& final(self)@.click_buffer == old(self)@.click_buffer
                &&& final(self)@.grid_size == old(self)@.grid_size
                &&& final(self)@.grid_enabled == old(self)@.grid_enabled
                &&& final(self)@.mouse_world_pos == old(self)@.mouse_world_pos
            },
    {
        if self.selected_indices.len() == 0 {
            return;
        }
        self.push_undo();
        let order = sort_descending(&self.selected_indices);
        remove_positions(&mut self.entities, &order);
        self.selected_indices.clear();
    }
}

} // verus!
