use shape_editor::{EditorElements, EditorState, EditorValues, Point};

const W: i64 = 800;
const H: i64 = 600;

fn press(state: &mut EditorState, x: i64, y: i64) {
    EditorElements::actions(state, true, false, Point::new(x, y), W, H);
}

fn release(state: &mut EditorState, x: i64, y: i64) {
    EditorElements::actions(state, false, true, Point::new(x, y), W, H);
}

/// A gesture from (ax, ay) to (rx, ry) with the active tool.
fn gesture(state: &mut EditorState, ax: i64, ay: i64, rx: i64, ry: i64) {
    press(state, ax, ay);
    release(state, rx, ry);
}

#[test]
fn committed_circle_scenario() {
    let mut state = EditorState::new();
    state.element = EditorElements::Circle;
    gesture(&mut state, 100, 100, 130, 100);
    assert_eq!(state.stack.len(), 1);
    assert_eq!(
        state.stack[0].value,
        EditorValues::Circle { center: Point::new(100, 100), radius: 30 }
    );
    assert_eq!(EditorElements::pick(&state.stack, Point::new(100, 100)), Some(0));
    assert_eq!(EditorElements::pick(&state.stack, Point::new(500, 500)), None);
}

#[test]
fn undo_after_commit_restores_pre_commit_scene() {
    let mut state = EditorState::new();
    state.element = EditorElements::Circle;
    gesture(&mut state, 100, 100, 130, 100);
    let before = state.stack.clone();
    gesture(&mut state, 300, 300, 340, 300);
    let after = state.stack.clone();
    assert_eq!(after.len(), 2);

    state.undo();
    assert_eq!(state.stack, before);
    state.redo();
    assert_eq!(state.stack, after);
}

#[test]
fn undo_then_redo_with_two_circles_keeps_order() {
    let mut state = EditorState::new();
    state.element = EditorElements::Circle;
    gesture(&mut state, 100, 100, 130, 100);
    gesture(&mut state, 300, 300, 340, 300);

    state.undo();
    assert_eq!(state.stack.len(), 1);
    assert_eq!(
        state.stack[0].value,
        EditorValues::Circle { center: Point::new(100, 100), radius: 30 }
    );

    state.redo();
    assert_eq!(state.stack.len(), 2);
    assert_eq!(
        state.stack[0].value,
        EditorValues::Circle { center: Point::new(100, 100), radius: 30 }
    );
    assert_eq!(
        state.stack[1].value,
        EditorValues::Circle { center: Point::new(300, 300), radius: 40 }
    );
}

#[test]
fn new_commit_after_undo_clears_redo() {
    let mut state = EditorState::new();
    state.element = EditorElements::Circle;
    gesture(&mut state, 100, 100, 130, 100);
    gesture(&mut state, 300, 300, 340, 300);
    state.undo();
    assert_eq!(state.stack_redo.len(), 1);

    gesture(&mut state, 500, 300, 540, 300);
    assert_eq!(state.stack_redo.len(), 0);

    let frozen = state.stack.clone();
    state.redo();
    assert_eq!(state.stack, frozen);
}

#[test]
fn undo_redo_on_empty_history_are_no_ops() {
    let mut state = EditorState::new();
    state.undo();
    assert!(state.stack.is_empty());
    assert!(state.stack_undo.is_empty());
    assert!(state.stack_redo.is_empty());
    state.redo();
    assert!(state.stack.is_empty());
    assert!(state.stack_undo.is_empty());
    assert!(state.stack_redo.is_empty());
}

#[test]
fn short_gesture_commits_nothing() {
    let mut state = EditorState::new();
    state.element = EditorElements::Circle;
    // release exactly at the commit threshold: a click, not a drag
    gesture(&mut state, 100, 100, 110, 100);
    assert!(state.stack.is_empty());
    assert!(state.stack_undo.is_empty());
    assert!(state.current.is_none());
}

#[test]
fn barely_longer_gesture_commits() {
    let mut state = EditorState::new();
    // snapping off, so the raw distance of 11 reaches the threshold test
    state.snap = false;
    state.element = EditorElements::Circle;
    gesture(&mut state, 100, 100, 111, 100);
    assert_eq!(state.stack.len(), 1);
    assert_eq!(state.stack_undo.len(), 1);
    assert!(state.current.is_none());
}

#[test]
fn press_in_draw_mode_captures_anchor() {
    let mut state = EditorState::new();
    press(&mut state, 100, 100);
    assert_eq!(state.current, Some(Point::new(100, 100)));
}

#[test]
fn commit_snapshots_history_once() {
    let mut state = EditorState::new();
    state.element = EditorElements::Line;
    gesture(&mut state, 0, 0, 100, 0);
    assert_eq!(state.stack_undo.len(), 1);
    assert!(state.stack_undo[0].is_empty());
    gesture(&mut state, 0, 50, 100, 50);
    assert_eq!(state.stack_undo.len(), 2);
    assert_eq!(state.stack_undo[1].len(), 1);
}

#[test]
fn select_press_starts_drag_with_grab_offset() {
    let mut state = EditorState::new();
    state.element = EditorElements::Circle;
    gesture(&mut state, 100, 100, 130, 100);
    state.draw = false;
    // the press position resolves through the snap engine first: the
    // grid pulls y = 95 to 100 before the offset is taken
    press(&mut state, 110, 95);
    assert!(state.drag);
    assert_eq!(state.drag_offset, Some(Point::new(10, 0)));

    release(&mut state, 110, 95);
    assert!(!state.drag);
}

#[test]
fn select_press_on_empty_space_starts_no_drag() {
    let mut state = EditorState::new();
    state.element = EditorElements::Circle;
    gesture(&mut state, 100, 100, 130, 100);
    state.draw = false;
    press(&mut state, 300, 300);
    assert!(!state.drag);
    assert_eq!(state.drag_offset, None);
}

#[test]
fn drags_are_not_undoable() {
    let mut state = EditorState::new();
    state.element = EditorElements::Circle;
    gesture(&mut state, 100, 100, 130, 100);
    let undo_depth = state.stack_undo.len();
    state.draw = false;
    press(&mut state, 100, 100);
    EditorElements::drag(&mut state, Point::new(150, 120));
    release(&mut state, 150, 120);
    assert_eq!(state.stack_undo.len(), undo_depth);
}
