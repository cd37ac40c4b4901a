use shape_editor::{EditorElement, EditorElements, EditorState, EditorValues, Point, Rgba};

fn color() -> Rgba {
    Rgba::new(255, 255, 255, 128)
}

fn rectangle_scene() -> EditorState {
    let mut state = EditorState::new();
    state.stack.push(EditorElement::new(
        EditorValues::Rectangle {
            point: Point::new(100, 100),
            width: 40,
            height: 20,
            rotation: 0,
        },
        color(),
    ));
    state.snap = false;
    state.draw = false;
    state
}

#[test]
fn rectangle_drag_moves_only_the_point() {
    let mut state = rectangle_scene();
    EditorElements::actions(&mut state, true, false, Point::new(110, 105), 800, 600);
    assert!(state.drag);
    assert_eq!(state.drag_offset, Some(Point::new(10, 5)));

    EditorElements::drag(&mut state, Point::new(115, 109));
    EditorElements::drag(&mut state, Point::new(120, 110));

    assert_eq!(
        state.stack[0].value,
        EditorValues::Rectangle {
            point: Point::new(110, 105),
            width: 40,
            height: 20,
            rotation: 0
        }
    );
    assert_eq!(state.stack[0].color, color());

    EditorElements::actions(&mut state, false, true, Point::new(120, 110), 800, 600);
    assert!(!state.drag);
}

#[test]
fn circle_drag_moves_center_and_keeps_radius() {
    let mut state = EditorState::new();
    state.stack.push(EditorElement::new(
        EditorValues::Circle { center: Point::new(100, 100), radius: 30 },
        color(),
    ));
    state.snap = false;
    state.draw = false;
    EditorElements::actions(&mut state, true, false, Point::new(110, 100), 800, 600);
    assert_eq!(state.drag_offset, Some(Point::new(10, 0)));
    // each frame picks under the pointer again, so it moves stepwise
    EditorElements::drag(&mut state, Point::new(120, 105));
    EditorElements::drag(&mut state, Point::new(130, 110));
    assert_eq!(
        state.stack[0].value,
        EditorValues::Circle { center: Point::new(120, 110), radius: 30 }
    );
}

#[test]
fn drag_needs_the_drag_flag() {
    let mut state = rectangle_scene();
    // no press: the drag flag is still off
    EditorElements::drag(&mut state, Point::new(110, 105));
    assert_eq!(
        state.stack[0].value,
        EditorValues::Rectangle {
            point: Point::new(100, 100),
            width: 40,
            height: 20,
            rotation: 0
        }
    );
}

#[test]
fn drag_with_pointer_off_every_element_changes_nothing() {
    let mut state = rectangle_scene();
    EditorElements::actions(&mut state, true, false, Point::new(110, 105), 800, 600);
    EditorElements::drag(&mut state, Point::new(400, 400));
    assert_eq!(
        state.stack[0].value,
        EditorValues::Rectangle {
            point: Point::new(100, 100),
            width: 40,
            height: 20,
            rotation: 0
        }
    );
}

#[test]
fn drag_without_stored_offset_jumps_to_origin() {
    let mut state = EditorState::new();
    state.stack.push(EditorElement::new(
        EditorValues::Circle { center: Point::new(100, 100), radius: 30 },
        color(),
    ));
    state.snap = false;
    state.draw = false;
    state.drag = true;
    state.drag_offset = None;
    EditorElements::drag(&mut state, Point::new(110, 100));
    assert_eq!(
        state.stack[0].value,
        EditorValues::Circle { center: Point::new(0, 0), radius: 30 }
    );
}

#[test]
fn drag_moves_first_hit_element_only() {
    let mut state = EditorState::new();
    state.stack.push(EditorElement::new(
        EditorValues::Circle { center: Point::new(100, 100), radius: 30 },
        color(),
    ));
    state.stack.push(EditorElement::new(
        EditorValues::Circle { center: Point::new(110, 100), radius: 30 },
        color(),
    ));
    state.snap = false;
    state.draw = false;
    EditorElements::actions(&mut state, true, false, Point::new(105, 100), 800, 600);
    assert_eq!(state.drag_offset, Some(Point::new(5, 0)));
    EditorElements::drag(&mut state, Point::new(106, 101));
    assert_eq!(
        state.stack[0].value,
        EditorValues::Circle { center: Point::new(101, 101), radius: 30 }
    );
    assert_eq!(
        state.stack[1].value,
        EditorValues::Circle { center: Point::new(110, 100), radius: 30 }
    );
}
