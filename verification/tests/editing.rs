use nalgebra::Point2;
use wcad::domain::{Entity, Layer};
use wcad::editing::{ClickOutcome, KeyCommand, KeyOutcome, RubberBand, SidebarContent};
use wcad::state::AppState;
use wcad::tools::Tool;

type Pt = Point2<f64>;
type State = AppState<&'static str, [f32; 3], Pt, f64>;

fn p(x: f64, y: f64) -> Pt {
    Point2::new(x, y)
}

fn new_state(tool: Tool) -> State {
    AppState {
        entities: Vec::new(),
        layers: vec![Layer::new("0", [1.0, 1.0, 1.0])],
        active_layer_index: 0,
        active_tool: tool,
        click_buffer: Vec::new(),
        selected_indices: Vec::new(),
        undo_stack: Vec::new(),
        redo_stack: Vec::new(),
        grid_size: 0.1,
        grid_enabled: true,
        mouse_world_pos: p(0.0, 0.0),
    }
}

fn completed(out: ClickOutcome<Pt>) -> Vec<Pt> {
    match out {
        ClickOutcome::Complete(points) => points,
        ClickOutcome::Buffered => panic!("expected a completed entity, got a buffered point"),
        ClickOutcome::Pick => panic!("expected a completed entity, got a pick"),
    }
}

#[test]
fn select_tool_clears_clicks_and_selection() {
    let mut s = new_state(Tool::Line);
    s.click_buffer.push(p(1.0, 1.0));
    s.selected_indices = vec![3];
    s.select_tool(Tool::Circle);
    assert_eq!(s.active_tool, Tool::Circle);
    assert!(s.click_buffer.is_empty());
    assert!(s.selected_indices.is_empty());
}

#[test]
fn select_tool_select_keeps_the_selection() {
    let mut s = new_state(Tool::Line);
    s.click_buffer.push(p(1.0, 1.0));
    s.selected_indices = vec![3];
    s.select_tool(Tool::Select);
    assert_eq!(s.active_tool, Tool::Select);
    assert!(s.click_buffer.is_empty());
    assert_eq!(s.selected_indices, vec![3]);
}

#[test]
fn point_tool_completes_at_once() {
    let mut s = new_state(Tool::Point);
    assert_eq!(completed(s.click(p(2.0, 3.0))), vec![p(2.0, 3.0)]);
    assert!(s.click_buffer.is_empty());
}

#[test]
fn two_click_tools_complete_on_second_click() {
    for tool in [Tool::Line, Tool::Circle, Tool::Rectangle] {
        let mut s = new_state(tool);
        assert!(matches!(s.click(p(0.0, 0.0)), ClickOutcome::Buffered));
        assert_eq!(s.click_buffer, vec![p(0.0, 0.0)]);
        assert_eq!(completed(s.click(p(1.0, 2.0))), vec![p(0.0, 0.0), p(1.0, 2.0)]);
        assert!(s.click_buffer.is_empty());
    }
}

#[test]
fn three_click_tools_complete_on_third_click() {
    for tool in [Tool::Arc, Tool::DimLinear, Tool::DimAligned, Tool::DimRadial] {
        let mut s = new_state(tool);
        assert!(matches!(s.click(p(0.0, 0.0)), ClickOutcome::Buffered));
        assert!(matches!(s.click(p(1.0, 0.0)), ClickOutcome::Buffered));
        assert_eq!(completed(s.click(p(0.0, 1.0))), vec![p(0.0, 0.0), p(1.0, 0.0), p(0.0, 1.0)]);
        assert!(s.click_buffer.is_empty());
    }
}

#[test]
fn polyline_keeps_every_click() {
    let mut s = new_state(Tool::Polyline);
    for i in 0..5 {
        assert!(matches!(s.click(p(i as f64, 0.0)), ClickOutcome::Buffered));
    }
    assert_eq!(s.click_buffer.len(), 5);
}

#[test]
fn select_click_leaves_state_to_the_picker() {
    let mut s = new_state(Tool::Select);
    assert!(matches!(s.click(p(0.0, 0.0)), ClickOutcome::Pick));
    assert!(s.click_buffer.is_empty());
    s.select_entity(Some(4));
    assert_eq!(s.selected_indices, vec![4]);
    s.select_entity(None);
    assert!(s.selected_indices.is_empty());
}

#[test]
fn finish_polyline_needs_two_points() {
    let mut s = new_state(Tool::Polyline);
    s.click(p(0.0, 0.0));
    assert!(s.finish_polyline().is_none());
    assert_eq!(s.click_buffer.len(), 1);
    s.click(p(1.0, 0.0));
    assert_eq!(s.finish_polyline(), Some(vec![p(0.0, 0.0), p(1.0, 0.0)]));
    assert!(s.click_buffer.is_empty());
}

#[test]
fn right_click_finishes_or_cancels() {
    let mut s = new_state(Tool::Polyline);
    s.click(p(0.0, 0.0));
    assert!(s.right_click().is_none());
    assert!(s.click_buffer.is_empty());
    s.click(p(0.0, 0.0));
    s.click(p(2.0, 0.0));
    assert_eq!(s.right_click(), Some(vec![p(0.0, 0.0), p(2.0, 0.0)]));
    let mut line = new_state(Tool::Line);
    line.click(p(5.0, 5.0));
    assert!(line.right_click().is_none());
    assert!(line.click_buffer.is_empty());
}

#[test]
fn keys_delete_undo_redo() {
    let mut s = new_state(Tool::Select);
    s.add_entity(Entity::new(1, "a", "0"));
    s.add_entity(Entity::new(2, "b", "0"));
    s.selected_indices = vec![0];
    assert!(matches!(s.handle_key(KeyCommand::Delete), KeyOutcome::Handled));
    assert_eq!(s.entities.len(), 1);
    assert_eq!(s.entities[0].geometry, "b");
    assert!(matches!(s.handle_key(KeyCommand::Undo), KeyOutcome::Handled));
    assert_eq!(s.entities.len(), 2);
    assert!(matches!(s.handle_key(KeyCommand::Redo), KeyOutcome::Handled));
    assert_eq!(s.entities.len(), 1);
}

#[test]
fn keys_grid_cancel_confirm() {
    let mut s = new_state(Tool::Polyline);
    assert!(matches!(s.handle_key(KeyCommand::ToggleGrid), KeyOutcome::Handled));
    assert!(!s.grid_enabled);
    s.click(p(0.0, 0.0));
    assert!(matches!(s.handle_key(KeyCommand::Confirm), KeyOutcome::Ignored));
    assert_eq!(s.click_buffer.len(), 1);
    assert!(matches!(s.handle_key(KeyCommand::Cancel), KeyOutcome::Handled));
    assert!(s.click_buffer.is_empty());
    s.click(p(0.0, 0.0));
    s.click(p(1.0, 1.0));
    match s.handle_key(KeyCommand::Confirm) {
        KeyOutcome::PolylineFinished(points) => assert_eq!(points, vec![p(0.0, 0.0), p(1.0, 1.0)]),
        _ => panic!("expected a finished polyline"),
    }
    assert!(s.click_buffer.is_empty());
}

#[test]
fn add_entity_then_undo_removes_it() {
    let mut s = new_state(Tool::Point);
    s.add_entity(Entity::new(1, "a", "0"));
    assert_eq!(s.entities.len(), 1);
    assert_eq!(s.undo_stack.len(), 1);
    s.undo();
    assert!(s.entities.is_empty());
    s.redo();
    assert_eq!(s.entities[0].id, 1);
}

#[test]
fn replace_entities_clears_selection_and_can_be_undone() {
    let mut s = new_state(Tool::Select);
    s.add_entity(Entity::new(1, "a", "0"));
    s.selected_indices = vec![0];
    s.replace_entities(vec![Entity::new(5, "x", "0"), Entity::new(6, "y", "0")]);
    assert_eq!(s.entities.len(), 2);
    assert!(s.selected_indices.is_empty());
    s.undo();
    assert_eq!(s.entities.len(), 1);
    assert_eq!(s.entities[0].id, 1);
}

#[test]
fn add_layer_names_by_count() {
    let mut s = new_state(Tool::Select);
    s.add_layer([0.5, 0.5, 0.5]);
    assert_eq!(s.layers.len(), 2);
    assert_eq!(s.layers[1].name, "Layer 1");
    assert!(s.layers[1].visible);
    assert!(!s.layers[1].locked);
    assert_eq!(s.layers[1].color, [0.5, 0.5, 0.5]);
    for _ in 0..10 {
        s.add_layer([1.0, 1.0, 1.0]);
    }
    assert_eq!(s.layers[11].name, "Layer 11");
    s.undo();
    assert_eq!(s.layers.len(), 11);
}

#[test]
fn toggle_layer_visibility_flips_and_undoes() {
    let mut s = new_state(Tool::Select);
    s.toggle_layer_visibility(0);
    assert!(!s.layers[0].visible);
    s.toggle_layer_visibility(0);
    assert!(s.layers[0].visible);
    s.undo();
    assert!(!s.layers[0].visible);
}

#[test]
fn sidebar_content_cases() {
    let mut s = new_state(Tool::Line);
    assert_eq!(s.sidebar_content(), SidebarContent::NoSelection);
    s.click(p(0.0, 0.0));
    assert_eq!(s.sidebar_content(), SidebarContent::Preview);
    s.selected_indices = vec![2];
    assert_eq!(s.sidebar_content(), SidebarContent::Properties(2));
    s.selected_indices = vec![2, 3];
    assert_eq!(s.sidebar_content(), SidebarContent::Preview);
    s.click_buffer.clear();
    assert_eq!(s.sidebar_content(), SidebarContent::MultipleSelection);
}

#[test]
fn rubber_band_follows_tool_and_clicks() {
    let mut s = new_state(Tool::Arc);
    assert!(matches!(s.rubber_band(), RubberBand::Nothing));
    s.click(p(0.0, 0.0));
    assert!(matches!(s.rubber_band(), RubberBand::Segment(a) if a == p(0.0, 0.0)));
    s.click(p(1.0, 0.0));
    assert!(matches!(s.rubber_band(), RubberBand::Arc(a, b) if a == p(0.0, 0.0) && b == p(1.0, 0.0)));

    let mut d = new_state(Tool::DimLinear);
    d.click(p(0.0, 0.0));
    d.click(p(3.0, 0.0));
    assert!(matches!(d.rubber_band(), RubberBand::LinearDimension(a, b) if a == p(0.0, 0.0) && b == p(3.0, 0.0)));

    let mut poly = new_state(Tool::Polyline);
    poly.click(p(0.0, 0.0));
    poly.click(p(1.0, 1.0));
    match poly.rubber_band() {
        RubberBand::Polyline(points) => assert_eq!(points, vec![p(0.0, 0.0), p(1.0, 1.0)]),
        _ => panic!("expected a polyline preview"),
    }

    let mut c = new_state(Tool::Circle);
    c.click(p(2.0, 2.0));
    assert!(matches!(c.rubber_band(), RubberBand::Circle(a) if a == p(2.0, 2.0)));
    let sel = new_state(Tool::Select);
    assert!(matches!(sel.rubber_band(), RubberBand::Nothing));
}
