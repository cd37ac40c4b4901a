use shape_editor::{EditorElement, EditorState, EditorValues, Point, Rgba};

const W: i64 = 800;
const H: i64 = 600;

fn line(ax: i64, ay: i64, bx: i64, by: i64) -> EditorElement {
    EditorElement::new(
        EditorValues::Line {
            point_a: Point::new(ax, ay),
            point_b: Point::new(bx, by),
            thickness: 1,
        },
        Rgba::new(255, 255, 255, 128),
    )
}

fn circle(x: i64, y: i64, radius: i64) -> EditorElement {
    EditorElement::new(
        EditorValues::Circle { center: Point::new(x, y), radius },
        Rgba::new(255, 255, 255, 128),
    )
}

#[test]
fn snap_disabled_returns_raw_position() {
    let mut state = EditorState::new();
    state.snap = false;
    assert_eq!(state.position(Point::new(87, 93), W, H), Point::new(87, 93));
}

#[test]
fn grid_rounds_each_axis_to_nearest_multiple() {
    let state = EditorState::new();
    assert_eq!(state.position(Point::new(104, 106), W, H), Point::new(100, 110));
}

#[test]
fn grid_rounds_ties_away_from_zero() {
    let state = EditorState::new();
    assert_eq!(state.position(Point::new(105, 95), W, H), Point::new(110, 100));
    assert_eq!(state.position(Point::new(-15, -14), W, H), Point::new(-20, -10));
}

#[test]
fn grid_level_zero_disables_grid_snap() {
    let mut state = EditorState::new();
    state.grid = 0;
    assert_eq!(state.position(Point::new(104, 106), W, H), Point::new(104, 106));
}

#[test]
fn position_on_grid_multiples_is_unchanged() {
    let state = EditorState::new();
    assert_eq!(state.position(Point::new(100, 100), W, H), Point::new(100, 100));
}

#[test]
fn frame_edge_overrides_grid() {
    // the standard frame's left edge on an 800-wide canvas is x = 80
    let state = EditorState::new();
    assert_eq!(state.position(Point::new(85, 300), W, H), Point::new(80, 300));
    assert_eq!(state.position(Point::new(725, 300), W, H), Point::new(720, 300));
}

#[test]
fn frame_top_and_bottom_snap_y() {
    // the standard frame's top edge on a 600-high canvas is y = 60
    let state = EditorState::new();
    assert_eq!(state.position(Point::new(300, 65), W, H), Point::new(300, 60));
    assert_eq!(state.position(Point::new(300, 545), W, H), Point::new(300, 540));
}

#[test]
fn canvas_edges_snap_last_among_lines() {
    let state = EditorState::new();
    assert_eq!(state.position(Point::new(7, 300), W, H), Point::new(0, 300));
    assert_eq!(state.position(Point::new(793, 300), W, H), Point::new(800, 300));
    assert_eq!(state.position(Point::new(300, 595), W, H), Point::new(300, 600));
}

#[test]
fn line_endpoint_snaps_whole_position() {
    let mut state = EditorState::new();
    state.stack.push(line(57, 203, 300, 400));
    assert_eq!(state.position(Point::new(55, 205), W, H), Point::new(57, 203));
}

#[test]
fn line_endpoint_snaps_single_axis() {
    let mut state = EditorState::new();
    state.stack.push(line(57, 203, 300, 400));
    assert_eq!(state.position(Point::new(55, 300), W, H), Point::new(57, 300));
}

#[test]
fn later_element_overrides_earlier_snap() {
    let mut state = EditorState::new();
    state.stack.push(line(57, 203, 300, 400));
    state.stack.push(line(55, 204, 300, 500));
    assert_eq!(state.position(Point::new(55, 205), W, H), Point::new(55, 204));
}

#[test]
fn circle_rim_point_snaps_whole_position() {
    let mut state = EditorState::new();
    state.stack.push(circle(203, 107, 50));
    // near the circle's rightmost rim point (253, 107); the radial
    // stage afterwards locks y back onto the pointer's own rim point
    assert_eq!(state.position(Point::new(251, 105), W, H), Point::new(253, 105));
}

#[test]
fn circle_radial_snap_locks_onto_rim() {
    let mut state = EditorState::new();
    state.stack.push(circle(0, 0, 100));
    // the pointer at (60, 82) is just outside the rim; its radial
    // projection with the integer distance 101 is (59, 81)
    assert_eq!(state.position(Point::new(60, 82), W, H), Point::new(59, 81));
}

#[test]
fn circle_center_snaps_whole_position() {
    let mut state = EditorState::new();
    state.stack.push(circle(203, 107, 50));
    assert_eq!(state.position(Point::new(205, 105), W, H), Point::new(203, 107));
}

#[test]
fn rectangles_contribute_no_anchor_snap() {
    let mut state = EditorState::new();
    state.stack.push(EditorElement::new(
        EditorValues::Rectangle {
            point: Point::new(57, 203),
            width: 40,
            height: 20,
            rotation: 0,
        },
        Rgba::new(255, 255, 255, 128),
    ));
    // were rectangles anchor targets, (55, 205) would snap to (57, 203)
    assert_eq!(state.position(Point::new(55, 205), W, H), Point::new(60, 210));
}
