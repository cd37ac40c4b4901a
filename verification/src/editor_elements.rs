//! The shape kinds a gesture can draw, the construction of a concrete
//! element from a gesture, and the hit-testing used to pick an element
//! for dragging.

use vstd::prelude::*;

use crate::editor_buttons::EditorButtons;
use crate::editor_element::{
    abs_int, elem_in_range, min_int, scene_in_range, EditorElement, EditorValues, Rgba,
};
use crate::editor_state::{
    model_in_range, spec_position, spec_redo, spec_save, spec_undo, EditorState, StateModel,
    COORD_LIMIT, FIELD_LIMIT, OFFSET_LIMIT, SNAP_LIMIT,
};
use crate::geometry::{
    dist_sq, dist_sq_i64, half_toward_zero, in_range, isqrt, lemma_square_bound, sqrt_floor,
    Point,
};

verus! {

/// Shortest gesture that still commits: a release at most this far from
/// the anchor is a click, not a drag, and creates nothing.
pub const SIZE_RESTRICTION: i64 = 10;

/// The closed set of shape kinds a gesture can draw.
#[derive(Debug, Clone, Copy, PartialEq, Eq, Structural)]
pub enum EditorElements {
    Line,
    Circle,
    Ellipse,
    Rectangle,
    Triangle,
    Hexagon,
}

/// The element a committed gesture from `current` to `position` creates:
/// lines join the two points; circles and hexagons are centred on the
/// anchor with the gesture length as radius (a hexagon is vertical when
/// the gesture ran rightward); ellipses are centred on the anchor with
/// the per-axis spans as extents; rectangles take the per-axis minima as
/// corner and the spans as extents; a triangle keeps the anchor and the
/// release, with a third vertex at the anchor's x and half the anchor's
/// y.
pub open spec fn spec_element(
    kind: EditorElements,
    color: Rgba,
    thickness: i64,
    current: Point,
    position: Point,
) -> EditorElement {
    let value = match kind {
        EditorElements::Hexagon => (EditorValues::Hexagon {
            center: current,
            radius: sqrt_floor(dist_sq(current, position)) as i64,
            vertical: current.x < position.x,
        }),
        EditorElements::Circle => (EditorValues::Circle {
            center: current,
            radius: sqrt_floor(dist_sq(current, position)) as i64,
        }),
        EditorElements::Ellipse => (EditorValues::Ellipse {
            center: current,
            width: abs_int(position.x - current.x) as i64,
            height: abs_int(position.y - current.y) as i64,
            rotation: 0,
        }),
        EditorElements::Line => (EditorValues::Line {
            point_a: current,
            point_b: position,
            thickness,
        }),
        EditorElements::Rectangle => (EditorValues::Rectangle {
            point: (Point {
                x: min_int(current.x as int, position.x as int) as i64,
                y: min_int(current.y as int, position.y as int) as i64,
            }),
            width: abs_int(position.x - current.x) as i64,
            height: abs_int(position.y - current.y) as i64,
            rotation: 0,
        }),
        EditorElements::Triangle => (EditorValues::Triangle {
            point_a: current,
            point_b: position,
            point_c: (Point { x: current.x, y: half_toward_zero(current.y as int) as i64 }),
        }),
    };
    EditorElement { color: color, value: value }
}

/// The hit region used for drag selection: discs for circles and
/// hexagons, the unrotated extent box for rectangles (every rectangle
/// this editor creates carries rotation zero; one that does not is not
/// picked). Lines, ellipses and triangles have no hit region.
pub open spec fn spec_hit(v: EditorValues, position: Point) -> bool {
    match v {
        EditorValues::Circle { center, radius } => dist_sq(position, center) <= radius * radius,
        EditorValues::Hexagon { center, radius, .. } => dist_sq(position, center) <= radius
            * radius,
        EditorValues::Rectangle { point, width, height, rotation } => {
            let dx = position.x - point.x;
            let dy = position.y - point.y;
            &&& rotation == 0
            &&& -width <= 2 * dx <= width
            &&& -height <= 2 * dy <= height
        },
        _ => false,
    }
}

/// The first index at or after `i` whose element contains `position`.
pub open spec fn spec_pick_from(s: Seq<EditorElement>, position: Point, i: int) -> Option<int>
    decreases s.len() - i,
{
    if i >= s.len() {
        None
    } else if spec_hit(s[i].value, position) {
        Some(i)
    } else {
        spec_pick_from(s, position, i + 1)
    }
}

/// The first element of the scene, in insertion order, whose hit region
/// contains `position`.
pub open spec fn spec_pick(s: Seq<EditorElement>, position: Point) -> Option<int> {
    spec_pick_from(s, position, 0)
}

/// What `spec_pick_from` returns: a hit whose every predecessor from `i`
/// on misses, or a guarantee that everything from `i` on misses.
pub proof fn lemma_pick_characterizes(s: Seq<EditorElement>, position: Point, i: int)
    requires
        0 <= i <= s.len(),
    ensures
        match spec_pick_from(s, position, i) {
            Some(j) => i <= j < s.len() && spec_hit(s[j].value, position) && (forall|k: int|
                i <= k < j ==> !spec_hit(#[trigger] s[k].value, position)),
            None => forall|k: int| i <= k < s.len() ==> !spec_hit(#[trigger] s[k].value, position),
        },
    decreases s.len() - i,
{
    if i < s.len() && !spec_hit(s[i].value, position) {
        lemma_pick_characterizes(s, position, i + 1);
    }
}

/// Picking decides by insertion order: with two overlapping circles and
/// a point inside both, the one inserted first is returned.
pub proof fn lemma_pick_first_inserted_circle(s: Seq<EditorElement>, position: Point)
    requires
        s.len() == 2,
        s[0].value is Circle,
        s[1].value is Circle,
        spec_hit(s[0].value, position),
        spec_hit(s[1].value, position),
    ensures
        spec_pick(s, position) == Some(0int),
{
}

impl EditorElements {
    /// Build the element the active tool draws for a gesture from
    /// `current` to `position`, in the active colour and thickness.
    pub fn element(state: &EditorState, current: Point, position: Point) -> (e: EditorElement)
        requires
            in_range(current, SNAP_LIMIT as int),
            in_range(position, SNAP_LIMIT as int),
        ensures
            e == spec_element(
                state.element,
                state.element_color,
                state.element_thickness,
                current,
                position,
            ),
    {
        let element_color = state.element_color;
        let element_value = match state.element {
            EditorElements::Hexagon => {
                let radius = isqrt(dist_sq_i64(current, position));
                EditorValues::Hexagon {
                    center: current,
                    radius,
                    vertical: current.x < position.x,
                }
            },
            EditorElements::Circle => {
                let radius = isqrt(dist_sq_i64(current, position));
                EditorValues::Circle { center: current, radius }
            },
            EditorElements::Ellipse => {
                let width = if position.x >= current.x {
                    position.x - current.x
                } else {
                    current.x - position.x
                };
                let height = if position.y >= current.y {
                    position.y - current.y
                } else {
                    current.y - position.y
                };
                EditorValues::Ellipse { center: current, height, width, rotation: 0 }
            },
            EditorElements::Line => {
                EditorValues::Line {
                    point_a: current,
                    point_b: position,
                    thickness: state.element_thickness,
                }
            },
            EditorElements::Rectangle => {
                let x = if current.x <= position.x {
                    current.x
                } else {
                    position.x
                };
                let y = if current.y <= position.y {
                    current.y
                } else {
                    position.y
                };
                let width = if position.x >= current.x {
                    position.x - current.x
                } else {
                    current.x - position.x
                };
                let height = if position.y >= current.y {
                    position.y - current.y
                } else {
                    current.y - position.y
                };
                EditorValues::Rectangle { point: Point { x, y }, width, height, rotation: 0 }
            },
            EditorElements::Triangle => {
                let half_y = if current.y >= 0 {
                    current.y / 2
                } else {
                    -((-current.y) / 2)
                };
                EditorValues::Triangle {
                    point_a: current,
                    point_b: position,
                    point_c: Point { x: current.x, y: half_y },
                }
            },
        };
        EditorElement::new(element_value, element_color)
    }

    /// Does the element's hit region contain `position`?
    pub fn hit(e: &EditorElement, position: Point) -> (r: bool)
        requires
            elem_in_range(*e, FIELD_LIMIT as int),
            in_range(position, SNAP_LIMIT as int),
        ensures
            r == spec_hit(e.value, position),
    {
        match e.value {
            EditorValues::Circle { center, radius } => {
                proof {
                    lemma_square_bound(radius as int, FIELD_LIMIT as int);
                }
                dist_sq_i64(position, center) <= radius * radius
            },
            EditorValues::Hexagon { center, radius, .. } => {
                proof {
                    lemma_square_bound(radius as int, FIELD_LIMIT as int);
                }
                dist_sq_i64(position, center) <= radius * radius
            },
            EditorValues::Rectangle { point, width, height, rotation } => {
                let dx = position.x - point.x;
                let dy = position.y - point.y;
                rotation == 0 && -width <= 2 * dx && 2 * dx <= width && -height <= 2 * dy && 2
                    * dy <= height
            },
            _ => false,
        }
    }

    /// The index of the first element, in insertion order, whose hit
    /// region contains `position`, if any.
    pub fn pick(stack: &Vec<EditorElement>, position: Point) -> (r: Option<usize>)
        requires
            scene_in_range(stack@, FIELD_LIMIT as int),
            in_range(position, SNAP_LIMIT as int),
        ensures
            match r {
                Some(i) => spec_pick(stack@, position) == Some(i as int),
                None => spec_pick(stack@, position) is None,
            },
    {
        let mut i: usize = 0;
        while i < stack.len()
            invariant
                0 <= i <= stack.len(),
                scene_in_range(stack@, FIELD_LIMIT as int),
                in_range(position, SNAP_LIMIT as int),
                spec_pick(stack@, position) == spec_pick_from(stack@, position, i as int),
            decreases stack.len() - i,
        {
            if Self::hit(&stack[i], position) {
                return Some(i);
            }
            i = i + 1;
        }
        None
    }
}

/// The position-bearing field of an element: the field a drag moves.
pub open spec fn anchor_of(v: EditorValues) -> Point {
    match v {
        EditorValues::Line { point_a, .. } => point_a,
        EditorValues::Circle { center, .. } => center,
        EditorValues::Ellipse { center, .. } => center,
        EditorValues::Rectangle { point, .. } => point,
        EditorValues::Triangle { point_a, .. } => point_a,
        EditorValues::Hexagon { center, .. } => center,
    }
}

/// The element with its anchor field replaced; every other field is
/// kept. Only the pickable kinds ever reach this through a drag.
pub open spec fn with_anchor(e: EditorElement, anchor: Point) -> EditorElement {
    let value = match e.value {
        EditorValues::Circle { radius, .. } => (EditorValues::Circle { center: anchor, radius }),
        EditorValues::Hexagon { radius, vertical, .. } => (EditorValues::Hexagon {
            center: anchor,
            radius,
            vertical,
        }),
        EditorValues::Rectangle { width, height, rotation, .. } => (EditorValues::Rectangle {
            point: anchor,
            width,
            height,
            rotation,
        }),
        _ => e.value,
    };
    EditorElement { color: e.color, value: value }
}

/// A pointer press while drawing: capture the resolved position as the
/// gesture anchor.
pub open spec fn spec_press_draw(m: StateModel, position: Point, pressed: bool) -> StateModel {
    if pressed && m.draw {
        StateModel { current: Some(position), ..m }
    } else {
        m
    }
}

/// A pointer release while drawing: the pending anchor is always
/// consumed; when the gesture spans more than the commit threshold the
/// new element is appended after a history snapshot, otherwise the
/// gesture is discarded.
pub open spec fn spec_release_draw(m: StateModel, position: Point, released: bool) -> StateModel {
    if released && m.draw && m.current is Some {
        let current = m.current->0;
        let taken = StateModel { current: None, ..m };
        if dist_sq(current, position) > SIZE_RESTRICTION * SIZE_RESTRICTION {
            let saved = spec_save(taken);
            StateModel {
                stack: saved.stack.push(
                    spec_element(m.element, m.element_color, m.element_thickness, current,
                        position),
                ),
                ..saved
            }
        } else {
            taken
        }
    } else {
        m
    }
}

/// A pointer press while selecting: pick the topmost-by-insertion-order
/// element under the pointer; on a hit, store the pointer-to-anchor
/// offset and start dragging.
pub open spec fn spec_press_select(m: StateModel, position: Point, pressed: bool) -> StateModel {
    if pressed && !m.draw {
        match spec_pick(m.stack, position) {
            Some(i) => {
                let anchor = anchor_of(m.stack[i].value);
                StateModel {
                    drag_offset: Some(
                        Point {
                            x: (position.x - anchor.x) as i64,
                            y: (position.y - anchor.y) as i64,
                        },
                    ),
                    drag: true,
                    ..m
                }
            },
            None => m,
        }
    } else {
        m
    }
}

/// A pointer release while selecting ends the drag.
pub open spec fn spec_release_select(m: StateModel, released: bool) -> StateModel {
    if released && !m.draw {
        StateModel { drag: false, ..m }
    } else {
        m
    }
}

/// One pointer event against the resolved position: the four gesture
/// rules in the order the editor applies them.
pub open spec fn spec_actions(
    m: StateModel,
    position: Point,
    pressed: bool,
    released: bool,
) -> StateModel {
    let m1 = spec_press_draw(m, position, pressed);
    let m2 = spec_release_draw(m1, position, released);
    let m3 = spec_press_select(m2, position, pressed);
    spec_release_select(m3, released)
}

/// A drag frame: while the select tool drags, the first element under
/// the pointer has its anchor moved to the resolved position less the
/// stored grab offset (or to the origin when no offset was stored).
pub open spec fn spec_drag(m: StateModel, position: Point) -> StateModel {
    if !m.draw && m.drag {
        match spec_pick(m.stack, position) {
            Some(i) => {
                let off = match m.drag_offset {
                    Some(o) => o,
                    None => position,
                };
                let anchor = Point {
                    x: (position.x - off.x) as i64,
                    y: (position.y - off.y) as i64,
                };
                StateModel { stack: m.stack.update(i, with_anchor(m.stack[i], anchor)), ..m }
            },
            None => m,
        }
    } else {
        m
    }
}

/// The state after a whole sequence of drag frames.
pub open spec fn spec_drag_seq(m: StateModel, positions: Seq<Point>) -> StateModel
    decreases positions.len(),
{
    if positions.len() == 0 {
        m
    } else {
        spec_drag_seq(spec_drag(m, positions[0]), positions.drop_first())
    }
}

/// Two elements agree on everything but their anchor position: same
/// colour, and for the draggable kinds the same sizes, rotation and
/// flags; any other kind is equal outright.
pub open spec fn same_shape(e1: EditorElement, e2: EditorElement) -> bool {
    e1.color == e2.color && match (e1.value, e2.value) {
        (
            EditorValues::Circle { radius: r1, .. },
            EditorValues::Circle { radius: r2, .. },
        ) => r1 == r2,
        (
            EditorValues::Hexagon { radius: r1, vertical: v1, .. },
            EditorValues::Hexagon { radius: r2, vertical: v2, .. },
        ) => r1 == r2 && v1 == v2,
        (
            EditorValues::Rectangle { width: w1, height: h1, rotation: t1, .. },
            EditorValues::Rectangle { width: w2, height: h2, rotation: t2, .. },
        ) => w1 == w2 && h1 == h2 && t1 == t2,
        (v1, v2) => v1 == v2,
    }
}

pub proof fn lemma_same_shape_trans(a: EditorElement, b: EditorElement, c: EditorElement)
    requires
        same_shape(a, b),
        same_shape(b, c),
    ensures
        same_shape(a, c),
{
}

/// One drag frame never changes the number of elements nor any
/// element's kind, sizes, rotation or colour: at most one anchor moves.
pub proof fn lemma_drag_step_preserves_shapes(m: StateModel, position: Point)
    ensures
        spec_drag(m, position).stack.len() == m.stack.len(),
        forall|i: int| 0 <= i < m.stack.len() ==> same_shape(
            m.stack[i],
            #[trigger] spec_drag(m, position).stack[i],
        ),
{
    if !m.draw && m.drag {
        lemma_pick_characterizes(m.stack, position, 0);
        match spec_pick(m.stack, position) {
            Some(j) => {
                let s2 = spec_drag(m, position).stack;
                assert forall|i: int| 0 <= i < m.stack.len() implies same_shape(
                    m.stack[i],
                    s2[i],
                ) by {
                    if i == j {
                        assert(same_shape(m.stack[j], s2[j]));
                    }
                }
            },
            None => {},
        }
    }
}

/// Dragging preserves shape: after any number of drag frames every
/// element keeps its kind, sizes, rotation and colour; in particular a
/// dragged rectangle changes only its corner point.
pub proof fn lemma_drag_preserves_shapes(m: StateModel, positions: Seq<Point>)
    ensures
        spec_drag_seq(m, positions).stack.len() == m.stack.len(),
        forall|i: int| 0 <= i < m.stack.len() ==> same_shape(
            m.stack[i],
            #[trigger] spec_drag_seq(m, positions).stack[i],
        ),
    decreases positions.len(),
{
    if positions.len() > 0 {
        let m1 = spec_drag(m, positions[0]);
        lemma_drag_step_preserves_shapes(m, positions[0]);
        lemma_drag_preserves_shapes(m1, positions.drop_first());
        assert forall|i: int| 0 <= i < m.stack.len() implies same_shape(
            m.stack[i],
            #[trigger] spec_drag_seq(m, positions).stack[i],
        ) by {
            lemma_same_shape_trans(m.stack[i], m1.stack[i], spec_drag_seq(m1,
                positions.drop_first()).stack[i]);
        }
    }
}

/// Dragging a rectangle changes only its `point`: width, height and
/// rotation are unchanged after any number of drag frames.
pub proof fn lemma_rectangle_drag_preserves_shape(
    m: StateModel,
    positions: Seq<Point>,
    i: int,
)
    requires
        0 <= i < m.stack.len(),
        m.stack[i].value is Rectangle,
    ensures
        spec_drag_seq(m, positions).stack[i].value is Rectangle,
        spec_drag_seq(m, positions).stack[i].value->Rectangle_width
            == m.stack[i].value->Rectangle_width,
        spec_drag_seq(m, positions).stack[i].value->Rectangle_height
            == m.stack[i].value->Rectangle_height,
        spec_drag_seq(m, positions).stack[i].value->Rectangle_rotation
            == m.stack[i].value->Rectangle_rotation,
        spec_drag_seq(m, positions).stack[i].color == m.stack[i].color,
{
    lemma_drag_preserves_shapes(m, positions);
}

/// Commit threshold: a release at most the commit threshold away from
/// the anchor creates no element and takes no history snapshot; only
/// the pending gesture is consumed.
pub proof fn lemma_commit_threshold(m: StateModel, position: Point)
    requires
        m.draw,
        m.current is Some,
        dist_sq(m.current->0, position) <= SIZE_RESTRICTION * SIZE_RESTRICTION,
    ensures
        spec_release_draw(m, position, true).stack == m.stack,
        spec_release_draw(m, position, true).stack_undo == m.stack_undo,
        spec_release_draw(m, position, true).stack_redo == m.stack_redo,
        spec_release_draw(m, position, true).current is None,
{
}

/// Undo/redo inverse law: after a committed gesture, `undo` restores
/// the pre-commit scene element for element, and `redo` then restores
/// the post-commit scene.
pub proof fn lemma_undo_redo_inverse(m: StateModel, position: Point)
    requires
        m.draw,
        m.current is Some,
        dist_sq(m.current->0, position) > SIZE_RESTRICTION * SIZE_RESTRICTION,
    ensures
        spec_undo(spec_release_draw(m, position, true)).stack == m.stack,
        spec_redo(spec_undo(spec_release_draw(m, position, true))).stack == spec_release_draw(
            m,
            position,
            true,
        ).stack,
{
}

/// Redo invalidation: a committed gesture leaves the redo stack empty,
/// so a `redo` right after it changes nothing.
pub proof fn lemma_redo_invalidation(m: StateModel, position: Point)
    requires
        m.draw,
        m.current is Some,
        dist_sq(m.current->0, position) > SIZE_RESTRICTION * SIZE_RESTRICTION,
    ensures
        spec_release_draw(m, position, true).stack_redo.len() == 0,
        spec_redo(spec_release_draw(m, position, true)) == spec_release_draw(m, position, true),
{
}

impl EditorElements {
    /// The Interaction State Machine's pointer step. The host samples
    /// the pointer (`raw`, with the button edges `pressed` and
    /// `released`) and the live canvas size; the rest is decided here:
    /// the position is resolved by the snap engine, a press starts a
    /// gesture or a drag, a release commits or discards a gesture or
    /// ends a drag.
    pub fn actions(
        state: &mut EditorState,
        pressed: bool,
        released: bool,
        raw: Point,
        width: i64,
        height: i64,
    )
        requires
            in_range(raw, COORD_LIMIT as int),
            0 <= width <= COORD_LIMIT,
            0 <= height <= COORD_LIMIT,
            model_in_range(old(state)@),
        ensures
            final(state)@ == spec_actions(
                old(state)@,
                spec_position(old(state)@.stack, raw, width, height, old(state)@.snap,
                    old(state)@.grid),
                pressed,
                released,
            ),
    {
        let position = state.position(raw, width, height);
        let ghost m0 = state@;

        if pressed && state.draw {
            state.current = Some(position);
        }
        let ghost m1 = state@;
        proof {
            assert(m1 =~= spec_press_draw(m0, position, pressed));
        }

        if released && state.draw {
            let taken = state.current;
            state.current = None;
            if let Some(current) = taken {
                if dist_sq_i64(current, position) > SIZE_RESTRICTION * SIZE_RESTRICTION {
                    let element = Self::element(state, current, position);
                    state.save();
                    state.stack.push(element);
                }
            }
        }
        let ghost m2 = state@;
        proof {
            assert(m2 =~= spec_release_draw(m1, position, released));
        }

        if pressed && !state.draw {
            if let Some(i) = Self::pick(&state.stack, position) {
                proof {
                    lemma_pick_characterizes(state.stack@, position, 0);
                }
                let anchor = match state.stack[i].value {
                    EditorValues::Circle { center, .. } => center,
                    EditorValues::Hexagon { center, .. } => center,
                    EditorValues::Rectangle { point, .. } => point,
                    _ => {
                        proof {
                            assert(false);
                        }
                        position
                    },
                };
                state.drag_offset = Some(
                    Point { x: position.x - anchor.x, y: position.y - anchor.y },
                );
                state.drag = true;
            }
        }
        let ghost m3 = state@;
        proof {
            assert(m3 =~= spec_press_select(m2, position, pressed));
        }

        if released && !state.draw {
            state.drag = false;
        }
        proof {
            assert(state@ =~= spec_release_select(m3, released));
        }
    }

    /// One frame of an ongoing drag: move the anchor of the element
    /// under the pointer, holding the grab offset constant.
    pub fn drag(state: &mut EditorState, position: Point)
        requires
            in_range(position, SNAP_LIMIT as int),
            scene_in_range(old(state)@.stack, FIELD_LIMIT as int),
            old(state)@.drag_offset matches Some(p) ==> in_range(p, OFFSET_LIMIT as int),
        ensures
            final(state)@ == spec_drag(old(state)@, position),
    {
        if !state.draw && state.drag {
            if let Some(i) = Self::pick(&state.stack, position) {
                proof {
                    lemma_pick_characterizes(state.stack@, position, 0);
                }
                let off = match state.drag_offset {
                    Some(o) => o,
                    None => position,
                };
                let anchor = Point { x: position.x - off.x, y: position.y - off.y };
                let elem = state.stack[i];
                let moved = match elem.value {
                    EditorValues::Circle { radius, .. } => EditorElement {
                        color: elem.color,
                        value: EditorValues::Circle { center: anchor, radius },
                    },
                    EditorValues::Hexagon { radius, vertical, .. } => EditorElement {
                        color: elem.color,
                        value: EditorValues::Hexagon { center: anchor, radius, vertical },
                    },
                    EditorValues::Rectangle { width, height, rotation, .. } => EditorElement {
                        color: elem.color,
                        value: EditorValues::Rectangle { point: anchor, width, height, rotation },
                    },
                    _ => {
                        proof {
                            assert(false);
                        }
                        elem
                    },
                };
                state.stack.set(i, moved);
                proof {
                    assert(state@ =~= spec_drag(old(state)@, position));
                }
            }
        }
    }
}

/// The toolbar button that stands for each shape kind.
pub open spec fn button_of(e: EditorElements) -> EditorButtons {
    match e {
        EditorElements::Line => EditorButtons::Line,
        EditorElements::Circle => EditorButtons::Circle,
        EditorElements::Ellipse => EditorButtons::Ellipse,
        EditorElements::Rectangle => EditorButtons::Rectangle,
        EditorElements::Triangle => EditorButtons::Triangle,
        EditorElements::Hexagon => EditorButtons::Hexagon,
    }
}

impl From<EditorElements> for EditorButtons {
    fn from(i: EditorElements) -> (r: EditorButtons) {
        match i {
            EditorElements::Line => EditorButtons::Line,
            EditorElements::Circle => EditorButtons::Circle,
            EditorElements::Ellipse => EditorButtons::Ellipse,
            EditorElements::Rectangle => EditorButtons::Rectangle,
            EditorElements::Triangle => EditorButtons::Triangle,
            EditorElements::Hexagon => EditorButtons::Hexagon,
        }
    }
}

impl vstd::std_specs::convert::FromSpecImpl<EditorElements> for EditorButtons {
    open spec fn obeys_from_spec() -> bool {
        true
    }

    open spec fn from_spec(e: EditorElements) -> EditorButtons {
        button_of(e)
    }
}

} // verus!
