use shape_editor::{EditorElement, EditorElements, EditorState, EditorValues, Point, Rgba};

fn state_with(kind: EditorElements) -> EditorState {
    let mut s = EditorState::new();
    s.element = kind;
    s
}

fn circle(x: i64, y: i64, radius: i64) -> EditorElement {
    EditorElement::new(
        EditorValues::Circle { center: Point::new(x, y), radius },
        Rgba::new(255, 255, 255, 128),
    )
}

#[test]
fn circle_gesture_takes_distance_as_radius() {
    let s = state_with(EditorElements::Circle);
    let e = EditorElements::element(&s, Point::new(100, 100), Point::new(130, 100));
    assert_eq!(
        e.value,
        EditorValues::Circle { center: Point::new(100, 100), radius: 30 }
    );
}

#[test]
fn circle_gesture_diagonal_radius_rounds_down() {
    let s = state_with(EditorElements::Circle);
    // distance of (30, 40) is exactly 50; distance of (30, 41) is irrational
    let e = EditorElements::element(&s, Point::new(0, 0), Point::new(30, 40));
    assert_eq!(e.value, EditorValues::Circle { center: Point::new(0, 0), radius: 50 });
    let e = EditorElements::element(&s, Point::new(0, 0), Point::new(30, 41));
    assert_eq!(e.value, EditorValues::Circle { center: Point::new(0, 0), radius: 50 });
}

#[test]
fn hexagon_gesture_vertical_only_when_dragged_rightward() {
    let s = state_with(EditorElements::Hexagon);
    let e = EditorElements::element(&s, Point::new(0, 0), Point::new(10, 0));
    assert_eq!(
        e.value,
        EditorValues::Hexagon { center: Point::new(0, 0), radius: 10, vertical: true }
    );
    let e = EditorElements::element(&s, Point::new(0, 0), Point::new(-10, 0));
    assert_eq!(
        e.value,
        EditorValues::Hexagon { center: Point::new(0, 0), radius: 10, vertical: false }
    );
}

#[test]
fn line_gesture_keeps_both_points_and_thickness() {
    let mut s = state_with(EditorElements::Line);
    s.element_thickness = 7;
    let e = EditorElements::element(&s, Point::new(1, 2), Point::new(3, 4));
    assert_eq!(
        e.value,
        EditorValues::Line {
            point_a: Point::new(1, 2),
            point_b: Point::new(3, 4),
            thickness: 7
        }
    );
}

#[test]
fn ellipse_gesture_takes_spans_as_extents() {
    let s = state_with(EditorElements::Ellipse);
    let e = EditorElements::element(&s, Point::new(100, 100), Point::new(70, 140));
    assert_eq!(
        e.value,
        EditorValues::Ellipse {
            center: Point::new(100, 100),
            width: 30,
            height: 40,
            rotation: 0
        }
    );
}

#[test]
fn rectangle_gesture_normalises_corner() {
    let s = state_with(EditorElements::Rectangle);
    let e = EditorElements::element(&s, Point::new(130, 80), Point::new(100, 100));
    assert_eq!(
        e.value,
        EditorValues::Rectangle {
            point: Point::new(100, 80),
            width: 30,
            height: 20,
            rotation: 0
        }
    );
}

#[test]
fn triangle_gesture_third_vertex_halves_anchor_y() {
    let s = state_with(EditorElements::Triangle);
    let e = EditorElements::element(&s, Point::new(100, 101), Point::new(40, 60));
    assert_eq!(
        e.value,
        EditorValues::Triangle {
            point_a: Point::new(100, 101),
            point_b: Point::new(40, 60),
            point_c: Point::new(100, 50)
        }
    );
    // halving rounds toward zero for a negative anchor
    let e = EditorElements::element(&s, Point::new(100, -101), Point::new(40, 60));
    assert_eq!(
        e.value,
        EditorValues::Triangle {
            point_a: Point::new(100, -101),
            point_b: Point::new(40, 60),
            point_c: Point::new(100, -50)
        }
    );
}

#[test]
fn pick_returns_first_inserted_of_overlapping_circles() {
    let stack = vec![circle(100, 100, 50), circle(120, 100, 50)];
    // (110, 100) lies inside both
    assert_eq!(EditorElements::pick(&stack, Point::new(110, 100)), Some(0));
}

#[test]
fn pick_skips_elements_whose_region_misses() {
    let stack = vec![circle(100, 100, 5), circle(120, 100, 50)];
    assert_eq!(EditorElements::pick(&stack, Point::new(140, 100)), Some(1));
}

#[test]
fn pick_misses_everything_far_away() {
    let stack = vec![circle(100, 100, 50), circle(120, 100, 50)];
    assert_eq!(EditorElements::pick(&stack, Point::new(500, 500)), None);
}

#[test]
fn pick_hits_circle_boundary_inclusively() {
    let stack = vec![circle(100, 100, 30)];
    assert_eq!(EditorElements::pick(&stack, Point::new(130, 100)), Some(0));
    assert_eq!(EditorElements::pick(&stack, Point::new(131, 100)), None);
}

#[test]
fn pick_ignores_lines_ellipses_and_triangles() {
    let color = Rgba::new(1, 2, 3, 4);
    let stack = vec![
        EditorElement::new(
            EditorValues::Line {
                point_a: Point::new(0, 0),
                point_b: Point::new(200, 200),
                thickness: 3,
            },
            color,
        ),
        EditorElement::new(
            EditorValues::Ellipse {
                center: Point::new(100, 100),
                width: 300,
                height: 300,
                rotation: 0,
            },
            color,
        ),
        EditorElement::new(
            EditorValues::Triangle {
                point_a: Point::new(0, 0),
                point_b: Point::new(200, 0),
                point_c: Point::new(100, 200),
            },
            color,
        ),
    ];
    assert_eq!(EditorElements::pick(&stack, Point::new(100, 100)), None);
}

#[test]
fn pick_rectangle_uses_extent_box_around_corner() {
    let color = Rgba::new(1, 2, 3, 4);
    let stack = vec![EditorElement::new(
        EditorValues::Rectangle {
            point: Point::new(100, 100),
            width: 40,
            height: 20,
            rotation: 0,
        },
        color,
    )];
    // the test box is centered on the stored corner point
    assert_eq!(EditorElements::pick(&stack, Point::new(120, 105)), Some(0));
    assert_eq!(EditorElements::pick(&stack, Point::new(80, 95)), Some(0));
    assert_eq!(EditorElements::pick(&stack, Point::new(121, 100)), None);
    assert_eq!(EditorElements::pick(&stack, Point::new(100, 111)), None);
}

#[test]
fn pick_skips_rectangle_carrying_rotation() {
    let color = Rgba::new(1, 2, 3, 4);
    let stack = vec![EditorElement::new(
        EditorValues::Rectangle {
            point: Point::new(100, 100),
            width: 40,
            height: 20,
            rotation: 1,
        },
        color,
    )];
    assert_eq!(EditorElements::pick(&stack, Point::new(100, 100)), None);
}

#[test]
fn hexagon_hit_region_is_its_disc() {
    let color = Rgba::new(1, 2, 3, 4);
    let stack = vec![EditorElement::new(
        EditorValues::Hexagon { center: Point::new(50, 50), radius: 10, vertical: true },
        color,
    )];
    assert_eq!(EditorElements::pick(&stack, Point::new(57, 57)), Some(0));
    assert_eq!(EditorElements::pick(&stack, Point::new(58, 58)), None);
}
