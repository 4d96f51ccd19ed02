use vstd::prelude::*;
use crate::domain::{Entity, Layer};
use crate::naming::{decimal, layer_name};
use crate::state::{AppState, AppStateView, snapshot_copies};
use crate::tools::Tool;

verus! {

/// What a left click in the drawing area leads to.
pub enum ClickOutcome<P> {
    /// The Select tool is active: the caller looks for the entity under
    /// the cursor and passes it to `select_entity`.
    Pick,
    /// The point was kept in the click buffer.
    Buffered,
    /// The click completed an entity defined by these points, in the order
    /// they were clicked.
    Complete(Vec<P>),
}

impl<G, C, P, S> AppState<G, C, P, S> {
    /// Makes `tool` the active tool and forgets the clicked points; every
    /// tool but Select also clears the selection.
    pub fn select_tool(&mut self, tool: Tool)
        ensures
            final(self)@ == (AppStateView {
                active_tool: tool,
                click_buffer: Seq::empty(),
                selected_indices: if tool == Tool::Select {
                    old(self)@.selected_indices
                } else {
                    Seq::empty()
                },
                ..old(self)@
            }),
    {
        self.active_tool = tool;
        self.click_buffer.clear();
        if tool != Tool::Select {
            self.selected_indices.clear();
        }
    }

    /// Replaces the selection by the entity `hit`, or by nothing.
    pub fn select_entity(&mut self, hit: Option<usize>)
        ensures
            final(self)@ == (AppStateView {
                selected_indices: match hit {
                    Some(i) => seq![i],
                    None => Seq::empty(),
                },
                ..old(self)@
            }),
    {
        self.selected_indices.clear();
        if let Some(i) = hit {
            self.selected_indices.push(i);
        }
        assert(self@.selected_indices =~= match hit {
            Some(i) => seq![i],
            None => Seq::<usize>::empty(),
        });
    }

    /// When the Polyline tool holds at least two points, hands them out and
    /// empties the click buffer; otherwise changes nothing.
    pub fn finish_polyline(&mut self) -> (out: Option<Vec<P>>)
        ensures
            old(self).active_tool == Tool::Polyline && old(self)@.click_buffer.len() >= 2 ==> {
                &&& out matches Some(points) && points@ == old(self)@.click_buffer
                &&& final(self)@ == (AppStateView { click_buffer: Seq::empty(), ..old(self)@ })
            },
            !(old(self).active_tool == Tool::Polyline && old(self)@.click_buffer.len() >= 2) ==> {
                &&& out is None
                &&& final(self)@ == old(self)@
            },
    {
        if self.active_tool == Tool::Polyline && self.click_buffer.len() >= 2 {
            let mut points: Vec<P> = Vec::new();
            std::mem::swap(&mut self.click_buffer, &mut points);
            Some(points)
        } else {
            None
        }
    }

    /// A right click: finishes a polyline of at least two points, and
    /// otherwise forgets the clicked points.
    pub fn right_click(&mut self) -> (out: Option<Vec<P>>)
        ensures
            old(self).active_tool == Tool::Polyline && old(self)@.click_buffer.len() >= 2 ==> {
                &&& out matches Some(points) && points@ == old(self)@.click_buffer
            },
            !(old(self).active_tool == Tool::Polyline && old(self)@.click_buffer.len() >= 2) ==> {
                &&& out is None
            },
            final(self)@ == (AppStateView { click_buffer: Seq::empty(), ..old(self)@ }),
    {
        let finished = self.finish_polyline();
        if finished.is_none() {
            self.click_buffer.clear();
        }
        assert(self@.click_buffer =~= Seq::<P>::empty());
        finished
    }

    /// What the property panel shows: the properties of the only selected
    /// entity, the preview of the entity being drawn, or a note that
    /// nothing or several entities are selected.
    pub fn sidebar_content(&self) -> (res: SidebarContent)
        ensures
            self@.selected_indices.len() == 1 ==> res == SidebarContent::Properties(
                self@.selected_indices[0],
            ),
            self@.selected_indices.len() != 1 && self@.click_buffer.len() > 0 ==> res
                == SidebarContent::Preview,
            self@.selected_indices.len() == 0 && self@.click_buffer.len() == 0 ==> res
                == SidebarContent::NoSelection,
            self@.selected_indices.len() > 1 && self@.click_buffer.len() == 0 ==> res
                == SidebarContent::MultipleSelection,
    {
        if self.selected_indices.len() == 1 {
            SidebarContent::Properties(self.selected_indices[0])
        } else if self.click_buffer.len() > 0 {
            SidebarContent::Preview
        } else if self.selected_indices.len() == 0 {
            SidebarContent::NoSelection
        } else {
            SidebarContent::MultipleSelection
        }
    }
}

/// What the property panel shows.
#[derive(Debug, Clone, Copy, PartialEq, Eq, Structural)]
pub enum SidebarContent {
    /// The properties of the entity at this index.
    Properties(usize),
    /// The preview of the entity being drawn.
    Preview,
    NoSelection,
    MultipleSelection,
}

impl<G, C, P: Copy, S> AppState<G, C, P, S> {
    /// A left click at `point` (already snapped). Point completes an entity
    /// at once; Line, Circle and Rectangle keep a first point and complete
    /// with the second; Arc and the dimension tools keep two points and
    /// complete with the third; Polyline keeps every point; Select leaves
    /// the state to `select_entity`.
    pub fn click(&mut self, point: P) -> (out: ClickOutcome<P>)
        ensures
            ({
                let o = old(self)@;
                let buffered = AppStateView { click_buffer: o.click_buffer.push(point), ..o };
                let cleared = AppStateView { click_buffer: Seq::empty(), ..o };
                match o.active_tool {
                    Tool::Select => out is Pick && final(self)@ == o,
                    Tool::Point => out matches ClickOutcome::Complete(pts) && pts@ == seq![point]
                        && final(self)@ == o,
                    Tool::Polyline => out is Buffered && final(self)@ == buffered,
                    Tool::Line | Tool::Circle | Tool::Rectangle => if o.click_buffer.len() == 0 {
                        out is Buffered && final(self)@ == buffered
                    } else {
                        out matches ClickOutcome::Complete(pts) && pts@ == seq![
                            o.click_buffer[0],
                            point,
                        ] && final(self)@ == cleared
                    },
                    _ => if o.click_buffer.len() < 2 {
                        out is Buffered && final(self)@ == buffered
                    } else {
                        out matches ClickOutcome::Complete(pts) && pts@ == seq![
                            o.click_buffer[0],
                            o.click_buffer[1],
                            point,
                        ] && final(self)@ == cleared
                    },
                }
            }),
    {
        match self.active_tool {
            Tool::Select => ClickOutcome::Pick,
            Tool::Point => {
                let pts = vec![point];
                assert(pts@ =~= seq![point]);
                ClickOutcome::Complete(pts)
            },
            Tool::Polyline => {
                self.click_buffer.push(point);
                ClickOutcome::Buffered
            },
            Tool::Line | Tool::Circle | Tool::Rectangle => {
                if self.click_buffer.len() == 0 {
                    self.click_buffer.push(point);
                    ClickOutcome::Buffered
                } else {
                    let first = self.click_buffer[0];
                    let pts = vec![first, point];
                    self.click_buffer.clear();
                    assert(pts@ =~= seq![old(self)@.click_buffer[0], point]);
                    ClickOutcome::Complete(pts)
                }
            },
            _ => {
                if self.click_buffer.len() < 2 {
                    self.click_buffer.push(point);
                    ClickOutcome::Buffered
                } else {
                    let first = self.click_buffer[0];
                    let second = self.click_buffer[1];
                    let pts = vec![first, second, point];
                    self.click_buffer.clear();
                    assert(pts@ =~= seq![old(self)@.click_buffer[0], old(self)@.click_buffer[1], point]);
                    ClickOutcome::Complete(pts)
                }
            },
        }
    }
}

/// Keyboard commands of the drawing area.
#[derive(Debug, Clone, Copy, PartialEq, Eq, Structural)]
pub enum KeyCommand {
    /// Delete the selected entities.
    Delete,
    Undo,
    Redo,
    /// Switch grid snapping on or off.
    ToggleGrid,
    /// Forget the clicked points.
    Cancel,
    /// Finish the polyline being drawn.
    Confirm,
}

/// What handling a key command led to.
pub enum KeyOutcome<P> {
    /// The command did not apply; the key goes on to other handlers.
    Ignored,
    /// The command was carried out.
    Handled,
    /// The polyline through these points is complete; the caller adds it.
    PolylineFinished(Vec<P>),
}

impl<G: Clone, C: Clone, P, S> AppState<G, C, P, S> {
    /// Adds `entity` at the end of the document after recording an undo
    /// point.
    pub fn add_entity(&mut self, entity: Entity<G, C>)
        ensures
            final(self)@.undo_stack.len() > 0,
            snapshot_copies(final(self)@.undo_stack.last(), old(self)@.document()),
            final(self)@ == (AppStateView {
                entities: old(self)@.entities.push(entity),
                ..old(self)@.with_undo_point(final(self)@.undo_stack.last())
            }),
    {
        self.push_undo();
        self.entities.push(entity);
    }

    /// Replaces all entities (as when a file is opened) after recording an
    /// undo point, and clears the selection.
    pub fn replace_entities(&mut self, entities: Vec<Entity<G, C>>)
        ensures
            final(self)@.undo_stack.len() > 0,
            snapshot_copies(final(self)@.undo_stack.last(), old(self)@.document()),
            final(self)@ == (AppStateView {
                entities: entities@,
                selected_indices: Seq::empty(),
                ..old(self)@.with_undo_point(final(self)@.undo_stack.last())
            }),
    {
        self.push_undo();
        self.entities = entities;
        self.selected_indices.clear();
    }

    /// Adds a visible, unlocked layer of colour `color`, named "Layer "
    /// followed by the number of layers there were, after recording an
    /// undo point.
    pub fn add_layer(&mut self, color: C)
        ensures
            final(self)@.undo_stack.len() > 0,
            snapshot_copies(final(self)@.undo_stack.last(), old(self)@.document()),
            final(self)@.layers.len() == old(self)@.layers.len() + 1,
            final(self)@.layers.last().name@ == "Layer "@ + decimal(old(self)@.layers.len()),
            final(self)@.layers.last().color == color,
            final(self)@.layers.last().visible,
            !final(self)@.layers.last().locked,
            final(self)@ == (AppStateView {
                layers: old(self)@.layers.push(final(self)@.layers.last()),
                ..old(self)@.with_undo_point(final(self)@.undo_stack.last())
            }),
    {
        self.push_undo();
        let name = layer_name(self.layers.len());
        self.layers.push(Layer::new(name.as_str(), color));
    }

    /// Shows a hidden layer or hides a visible one, after recording an
    /// undo point.
    pub fn toggle_layer_visibility(&mut self, index: usize)
        requires
            index < old(self).layers.len(),
        ensures
            final(self)@.undo_stack.len() > 0,
            snapshot_copies(final(self)@.undo_stack.last(), old(self)@.document()),
            final(self)@ == (AppStateView {
                layers: old(self)@.layers.update(
                    index as int,
                    Layer { visible: !old(self)@.layers[index as int].visible, ..old(self)@.layers[index as int] },
                ),
                ..old(self)@.with_undo_point(final(self)@.undo_stack.last())
            }),
    {
        self.push_undo();
        let mut layer = self.layers.remove(index);
        layer.visible = !layer.visible;
        self.layers.insert(index, layer);
        assert(self@.layers =~= old(self)@.layers.update(
            index as int,
            Layer { visible: !old(self)@.layers[index as int].visible, ..old(self)@.layers[index as int] },
        ));
    }

    /// Carries out a keyboard command.
    pub fn handle_key(&mut self, key: KeyCommand) -> (out: KeyOutcome<P>)
        ensures
            ({
                let o = old(self)@;
                let ready = old(self).active_tool == Tool::Polyline && o.click_buffer.len() >= 2;
                match key {
                    KeyCommand::Delete => {
                        &&& out is Handled
                        &&& o.selected_indices.len() == 0 ==> final(self)@ == o
                        &&& o.selected_indices.len() > 0 ==> {
                            &&& final(self)@.undo_stack.len() > 0
                            &&& snapshot_copies(final(self)@.undo_stack.last(), o.document())
                            &&& final(self)@ == o.with_undo_point(
                                final(self)@.undo_stack.last(),
                            ).with_selection_removed()
                        }
                    },
                    KeyCommand::Undo => out is Handled && final(self)@ == o.undone(),
                    KeyCommand::Redo => out is Handled && final(self)@ == o.redone(),
                    KeyCommand::ToggleGrid => out is Handled && final(self)@ == (AppStateView {
                        grid_enabled: !o.grid_enabled,
                        ..o
                    }),
                    KeyCommand::Cancel => out is Handled && final(self)@ == (AppStateView {
                        click_buffer: Seq::empty(),
                        ..o
                    }),
                    KeyCommand::Confirm => if ready {
                        &&& out matches KeyOutcome::PolylineFinished(points) && points@
                            == o.click_buffer
                        &&& final(self)@ == (AppStateView { click_buffer: Seq::empty(), ..o })
                    } else {
                        out is Ignored && final(self)@ == o
                    },
                }
            }),
    {
        match key {
            KeyCommand::Delete => {
                self.delete_selected();
                KeyOutcome::Handled
            },
            KeyCommand::Undo => {
                self.undo();
                KeyOutcome::Handled
            },
            KeyCommand::Redo => {
                self.redo();
                KeyOutcome::Handled
            },
            KeyCommand::ToggleGrid => {
                self.grid_enabled = !self.grid_enabled;
                KeyOutcome::Handled
            },
            KeyCommand::Cancel => {
                self.click_buffer.clear();
                assert(self@.click_buffer =~= Seq::<P>::empty());
                KeyOutcome::Handled
            },
            KeyCommand::Confirm => match self.finish_polyline() {
                Some(points) => KeyOutcome::PolylineFinished(points),
                None => KeyOutcome::Ignored,
            },
        }
    }
}

/// The provisional shape drawn while an entity is being drawn; the cursor
/// supplies the last point.
pub enum RubberBand<P> {
    Nothing,
    /// A segment from this point to the cursor.
    Segment(P),
    /// A circle around this centre through the cursor.
    Circle(P),
    /// A rectangle from this corner to the cursor.
    Rectangle(P),
    /// An arc around the first point, from the second point towards the
    /// cursor.
    Arc(P, P),
    /// A polyline through these points and the cursor.
    Polyline(Vec<P>),
    /// A linear dimension between the two points, placed at the cursor.
    LinearDimension(P, P),
    /// An aligned dimension between the two points, placed at the cursor.
    AlignedDimension(P, P),
    /// A radial dimension from the centre to the point, labelled at the
    /// cursor.
    RadialDimension(P, P),
}

/// The points of `v`, copied.
fn copy_points<P: Copy>(v: &Vec<P>) -> (res: Vec<P>)
    ensures
        res@ == v@,
{
    let mut res: Vec<P> = Vec::new();
    for i in 0..v.len()
        invariant
            res@ == v@.take(i as int),
    {
        assert(v@.take(i + 1) =~= v@.take(i as int).push(v@[i as int]));
        res.push(v[i]);
    }
    assert(v@.take(v.len() as int) =~= v@);
    res
}

impl<G, C, P: Copy, S> AppState<G, C, P, S> {
    /// The provisional shape of the entity being drawn with the active
    /// tool and the clicked points.
    pub fn rubber_band(&self) -> (res: RubberBand<P>)
        ensures
            ({
                let b = self@.click_buffer;
                if b.len() == 0 {
                    res is Nothing
                } else {
                    match self.active_tool {
                        Tool::Line => res == RubberBand::Segment(b[0]),
                        Tool::Circle => res == RubberBand::Circle(b[0]),
                        Tool::Rectangle => res == RubberBand::Rectangle(b[0]),
                        Tool::Arc => if b.len() == 1 {
                            res == RubberBand::Segment(b[0])
                        } else if b.len() == 2 {
                            res == RubberBand::Arc(b[0], b[1])
                        } else {
                            res is Nothing
                        },
                        Tool::Polyline => res matches RubberBand::Polyline(points) && points@ == b,
                        Tool::DimLinear => if b.len() == 1 {
                            res == RubberBand::Segment(b[0])
                        } else if b.len() == 2 {
                            res == RubberBand::LinearDimension(b[0], b[1])
                        } else {
                            res is Nothing
                        },
                        Tool::DimAligned => if b.len() == 1 {
                            res == RubberBand::Segment(b[0])
                        } else if b.len() == 2 {
                            res == RubberBand::AlignedDimension(b[0], b[1])
                        } else {
                            res is Nothing
                        },
                        Tool::DimRadial => if b.len() == 1 {
                            res == RubberBand::Segment(b[0])
                        } else if b.len() == 2 {
                            res == RubberBand::RadialDimension(b[0], b[1])
                        } else {
                            res is Nothing
                        },
                        _ => res is Nothing,
                    }
                }
            }),
    {
        let n = self.click_buffer.len();
        if n == 0 {
            return RubberBand::Nothing;
        }
        let first = self.click_buffer[0];
        match self.active_tool {
            Tool::Line => RubberBand::Segment(first),
            Tool::Circle => RubberBand::Circle(first),
            Tool::Rectangle => RubberBand::Rectangle(first),
            Tool::Polyline => RubberBand::Polyline(copy_points(&self.click_buffer)),
            Tool::Arc | Tool::DimLinear | Tool::DimAligned | Tool::DimRadial => {
                if n == 1 {
                    RubberBand::Segment(first)
                } else if n == 2 {
                    let second = self.click_buffer[1];
                    match self.active_tool {
                        Tool::Arc => RubberBand::Arc(first, second),
                        Tool::DimLinear => RubberBand::LinearDimension(first, second),
                        Tool::DimAligned => RubberBand::AlignedDimension(first, second),
                        _ => RubberBand::RadialDimension(first, second),
                    }
                } else {
                    RubberBand::Nothing
                }
            },
            _ => RubberBand::Nothing,
        }
    }
}

} // verus!
