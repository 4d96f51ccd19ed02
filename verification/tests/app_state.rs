use nalgebra::Point2;
use wcad::domain::{Entity, Layer};
use wcad::state::AppState;
use wcad::tools::Tool;

#[derive(Debug, Clone, PartialEq)]
enum GeometryKind {
    Point(Point2<f64>),
}

type State = AppState<GeometryKind, [f32; 3], Point2<f64>, f64>;

fn point_entity(id: u64, x: f64, y: f64) -> Entity<GeometryKind, [f32; 3]> {
    Entity::new(id, GeometryKind::Point(Point2::new(x, y)), "0")
}

fn state_with(entities: Vec<Entity<GeometryKind, [f32; 3]>>, selected_indices: Vec<usize>) -> State {
    AppState {
        entities,
        layers: vec![Layer::new("0", [1.0, 1.0, 1.0])],
        active_layer_index: 0,
        active_tool: Tool::Select,
        click_buffer: Vec::new(),
        selected_indices,
        undo_stack: Vec::new(),
        redo_stack: Vec::new(),
        grid_size: 0.1,
        grid_enabled: true,
        mouse_world_pos: Point2::new(0.0, 0.0),
    }
}

#[test]
fn test_app_state_undo_redo() {
    let mut state = state_with(Vec::new(), Vec::new());

    // Add an entity
    state.push_undo();
    state.entities.push(point_entity(1, 0.0, 0.0));
    assert_eq!(state.entities.len(), 1);

    // Undo
    state.undo();
    assert_eq!(state.entities.len(), 0);
    assert_eq!(state.redo_stack.len(), 1);

    // Redo
    state.redo();
    assert_eq!(state.entities.len(), 1);
    assert_eq!(state.undo_stack.len(), 1);
}

#[test]
fn test_app_state_delete_selected() {
    let mut state = state_with(
        vec![point_entity(1, 0.0, 0.0), point_entity(2, 1.0, 1.0), point_entity(3, 2.0, 2.0)],
        vec![0, 2], // Select first and third
    );

    state.delete_selected();
    assert_eq!(state.entities.len(), 1);
    // The one at index 1 (Point(1,1)) should remain
    if let GeometryKind::Point(p) = &state.entities[0].geometry {
        assert_eq!(p.x, 1.0);
    } else {
        panic!("Wrong entity remains");
    }

    // Undo delete
    state.undo();
    assert_eq!(state.entities.len(), 3);
}

#[test]
fn undo_then_redo_returns_to_the_same_document() {
    let mut state = state_with(vec![point_entity(1, 0.0, 0.0)], Vec::new());
    state.push_undo();
    state.entities.push(point_entity(2, 5.0, 5.0));
    state.selected_indices = vec![1];
    state.undo();
    assert_eq!(state.entities.len(), 1);
    assert!(state.selected_indices.is_empty());
    state.redo();
    assert_eq!(state.entities.len(), 2);
    assert_eq!(state.entities[1].id, 2);
    assert_eq!(state.entities[1].geometry, GeometryKind::Point(Point2::new(5.0, 5.0)));
    assert!(state.selected_indices.is_empty());
    assert_eq!(state.undo_stack.len(), 1);
    assert_eq!(state.redo_stack.len(), 0);
}

#[test]
fn undo_and_redo_without_history_change_nothing() {
    let mut state = state_with(vec![point_entity(1, 0.0, 0.0)], vec![0]);
    state.undo();
    state.redo();
    assert_eq!(state.entities.len(), 1);
    assert_eq!(state.selected_indices, vec![0]);
}

#[test]
fn push_undo_clears_redo_history() {
    let mut state = state_with(Vec::new(), Vec::new());
    state.push_undo();
    state.entities.push(point_entity(1, 0.0, 0.0));
    state.undo();
    assert_eq!(state.redo_stack.len(), 1);
    state.push_undo();
    assert_eq!(state.redo_stack.len(), 0);
    state.redo();
    assert_eq!(state.entities.len(), 0);
}

#[test]
fn push_undo_records_a_copy_of_the_document() {
    let mut state = state_with(vec![point_entity(7, 3.0, 4.0)], Vec::new());
    state.active_layer_index = 0;
    state.push_undo();
    let snapshot = &state.undo_stack[0];
    assert_eq!(snapshot.entities.len(), 1);
    assert_eq!(snapshot.entities[0].id, 7);
    assert_eq!(snapshot.entities[0].layer, "0");
    assert_eq!(snapshot.layers.len(), 1);
    assert_eq!(snapshot.layers[0].name, "0");
    assert_eq!(snapshot.active_layer_index, 0);
}

#[test]
fn history_keeps_every_undo_point() {
    let mut state = state_with(Vec::new(), Vec::new());
    for i in 0..60u64 {
        state.push_undo();
        state.entities.push(point_entity(i + 1, 0.0, 0.0));
    }
    assert_eq!(state.undo_stack.len(), 60);
    assert_eq!(state.undo_stack[0].entities.len(), 0);
    for _ in 0..60 {
        state.undo();
    }
    assert_eq!(state.entities.len(), 0);
    assert_eq!(state.redo_stack.len(), 60);
    for _ in 0..60 {
        state.redo();
    }
    assert_eq!(state.entities.len(), 60);
    assert_eq!(state.entities[59].id, 60);
    assert!(state.redo_stack.is_empty());
}

#[test]
fn delete_without_selection_records_nothing() {
    let mut state = state_with(vec![point_entity(1, 0.0, 0.0)], Vec::new());
    state.delete_selected();
    assert_eq!(state.entities.len(), 1);
    assert!(state.undo_stack.is_empty());
}

#[test]
fn delete_ignores_indices_beyond_the_end() {
    let mut state = state_with(vec![point_entity(1, 0.0, 0.0), point_entity(2, 1.0, 0.0)], vec![5, 0]);
    state.delete_selected();
    assert_eq!(state.entities.len(), 1);
    assert_eq!(state.entities[0].id, 2);
    assert!(state.selected_indices.is_empty());
    assert_eq!(state.undo_stack.len(), 1);
}

#[test]
fn delete_in_any_selection_order_keeps_the_unselected() {
    let entities: Vec<_> = (1..=6).map(|i| point_entity(i, i as f64, 0.0)).collect();
    let mut state = state_with(entities, vec![1, 4, 3]);
    state.delete_selected();
    let ids: Vec<u64> = state.entities.iter().map(|e| e.id).collect();
    assert_eq!(ids, vec![1, 3, 6]);
}

#[test]
fn delete_with_a_repeated_index_removes_in_descending_order() {
    // Indices [1, 1] are removed one after the other: first b, then c.
    let entities: Vec<_> = (1..=3).map(|i| point_entity(i, 0.0, 0.0)).collect();
    let mut state = state_with(entities, vec![1, 1]);
    state.delete_selected();
    let ids: Vec<u64> = state.entities.iter().map(|e| e.id).collect();
    assert_eq!(ids, vec![1]);
}
