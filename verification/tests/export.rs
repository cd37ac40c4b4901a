use shape_editor::{EditorElement, EditorState, EditorValues, Point, Rgba};

fn color() -> Rgba {
    Rgba::new(255, 255, 255, 128)
}

#[test]
fn export_of_empty_scene_is_empty() {
    let state = EditorState::new();
    let data = state.export();
    assert_eq!(data.width, 0);
    assert_eq!(data.height, 0);
    assert!(data.elements.is_empty());
}

#[test]
fn export_translates_single_circle_to_origin_box() {
    let mut state = EditorState::new();
    state.stack.push(EditorElement::new(
        EditorValues::Circle { center: Point::new(200, 100), radius: 20 },
        color(),
    ));
    let data = state.export();
    assert_eq!(data.width, 40);
    assert_eq!(data.height, 40);
    assert_eq!(
        data.elements[0].value,
        EditorValues::Circle { center: Point::new(20, 20), radius: 20 }
    );
}

#[test]
fn export_box_covers_all_elements() {
    let mut state = EditorState::new();
    state.stack.push(EditorElement::new(
        EditorValues::Line {
            point_a: Point::new(0, 0),
            point_b: Point::new(100, 50),
            thickness: 2,
        },
        color(),
    ));
    state.stack.push(EditorElement::new(
        EditorValues::Circle { center: Point::new(200, 100), radius: 20 },
        color(),
    ));
    let data = state.export();
    assert_eq!(data.width, 220);
    assert_eq!(data.height, 120);
    assert_eq!(
        data.elements[0].value,
        EditorValues::Line {
            point_a: Point::new(0, 0),
            point_b: Point::new(100, 50),
            thickness: 2
        }
    );
    assert_eq!(
        data.elements[1].value,
        EditorValues::Circle { center: Point::new(200, 100), radius: 20 }
    );
}

#[test]
fn export_rectangle_extent_spans_corner_plus_size() {
    let mut state = EditorState::new();
    state.stack.push(EditorElement::new(
        EditorValues::Rectangle {
            point: Point::new(5, 6),
            width: 10,
            height: 20,
            rotation: 0,
        },
        color(),
    ));
    let data = state.export();
    assert_eq!(data.width, 10);
    assert_eq!(data.height, 20);
    assert_eq!(
        data.elements[0].value,
        EditorValues::Rectangle {
            point: Point::new(0, 0),
            width: 10,
            height: 20,
            rotation: 0
        }
    );
}

#[test]
fn export_ellipse_extent_uses_half_sizes() {
    let mut state = EditorState::new();
    state.stack.push(EditorElement::new(
        EditorValues::Ellipse {
            center: Point::new(100, 100),
            width: 30,
            height: 20,
            rotation: 0,
        },
        color(),
    ));
    let data = state.export();
    assert_eq!(data.width, 30);
    assert_eq!(data.height, 20);
    assert_eq!(
        data.elements[0].value,
        EditorValues::Ellipse {
            center: Point::new(15, 10),
            width: 30,
            height: 20,
            rotation: 0
        }
    );
}

#[test]
fn export_triangle_extent_is_min_max_of_vertices() {
    let mut state = EditorState::new();
    state.stack.push(EditorElement::new(
        EditorValues::Triangle {
            point_a: Point::new(0, 0),
            point_b: Point::new(10, -5),
            point_c: Point::new(4, 8),
        },
        color(),
    ));
    let data = state.export();
    assert_eq!(data.width, 10);
    assert_eq!(data.height, 13);
    assert_eq!(
        data.elements[0].value,
        EditorValues::Triangle {
            point_a: Point::new(0, 5),
            point_b: Point::new(10, 0),
            point_c: Point::new(4, 13)
        }
    );
}

#[test]
fn export_hexagon_extent_is_center_plus_radius() {
    let mut state = EditorState::new();
    state.stack.push(EditorElement::new(
        EditorValues::Hexagon { center: Point::new(10, 10), radius: 3, vertical: false },
        color(),
    ));
    let data = state.export();
    assert_eq!(data.width, 6);
    assert_eq!(data.height, 6);
    assert_eq!(
        data.elements[0].value,
        EditorValues::Hexagon { center: Point::new(3, 3), radius: 3, vertical: false }
    );
}

#[test]
fn export_keeps_element_colors() {
    let mut state = EditorState::new();
    state.stack.push(EditorElement::new(
        EditorValues::Circle { center: Point::new(0, 0), radius: 1 },
        Rgba::new(9, 8, 7, 6),
    ));
    let data = state.export();
    assert_eq!(data.elements[0].color, Rgba::new(9, 8, 7, 6));
}
