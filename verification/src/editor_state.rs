//! The editor's state: scene, history stacks, mode flags and the
//! gesture/drag bookkeeping, with the undo/redo discipline and (in this
//! module) the snapping engine and the export pass.

use vstd::prelude::*;

use crate::editor_buttons::EditorButtons;
use crate::editor_element::{
    abs_int, bbox_max_x, bbox_max_y, bbox_min_x, bbox_min_y, elem_in_range, elem_wf, max_int,
    min_int, scene_in_range, scene_wf, translate_element, EditorElement, EditorValues, Rgba,
};
use crate::editor_elements::EditorElements;
use crate::geometry::{
    dist_sq, dist_sq_i64, in_range, isqrt, lemma_round_div_bound, lemma_sqrt_floor_ge,
    lemma_square_bound, round_div, round_div_i64, sqrt_floor, Point,
};

verus! {

/// The standard reference frame, a centered 640 x 480 rectangle.
pub const DISPLAY_WIDTH: i64 = 640;

pub const DISPLAY_HEIGHT: i64 = 480;

/// The HD reference frame, a centered 1280 x 720 rectangle.
pub const DISPLAY_HD_WIDTH: i64 = 1280;

pub const DISPLAY_HD_HEIGHT: i64 = 720;

/// Tolerance for grid, reference-frame and canvas-edge snapping.
pub const STICKY: i64 = 10;

/// Radius for whole-point snapping to element anchor points.
pub const STICKY_ELEMENT: i64 = 5;

/// Pitch of the snap grid (and of the fine background grid).
pub const SIZE_GRID: i64 = 10;

/// Tolerance for per-axis snapping to element anchor coordinates.
pub const SIZE_POINT: i64 = 3;

/// Largest magnitude accepted for a raw pointer coordinate or a canvas
/// dimension.
pub const COORD_LIMIT: i64 = 1_000_000;

/// Largest magnitude a stored scene scalar may have when an operation
/// reads the scene; keeps every squared distance and product inside an
/// `i64`.
pub const FIELD_LIMIT: i64 = 400_000_000;

/// Every coordinate a position resolved against an in-range scene can
/// have.
pub const SNAP_LIMIT: i64 = 900_000_000;

/// Largest magnitude accepted for a stored drag offset coordinate.
pub const OFFSET_LIMIT: i64 = 1_300_000_000;

/// The whole interaction state of the editor.
#[derive(Debug, Clone)]
pub struct EditorState {
    /// The shape kind the next gesture will draw.
    pub element: EditorElements,
    /// Line thickness given to new line elements.
    pub element_thickness: i64,
    /// Colour given to new elements.
    pub element_color: Rgba,
    /// Index of the active colour in the host's palette.
    pub element_color_index: usize,
    /// The scene: insertion order is draw order.
    pub stack: Vec<EditorElement>,
    /// Scenes to return to, most recent last.
    pub stack_undo: Vec<Vec<EditorElement>>,
    /// Scenes undone, most recent last.
    pub stack_redo: Vec<Vec<EditorElement>>,
    /// The anchor captured when a draw gesture is in progress.
    pub current: Option<Point>,
    /// The toolbar button pressed last.
    pub button: Option<EditorButtons>,
    /// True while the draw tool is active, false for select/drag.
    pub draw: bool,
    /// True while snapping is enabled.
    pub snap: bool,
    /// Grid level: 0 off, 1 fine, 2 fine plus coarse.
    pub grid: u16,
    /// True while the help overlay is shown.
    pub help: bool,
    /// True while an element is being dragged.
    pub drag: bool,
    /// Pointer-to-anchor offset captured at drag start.
    pub drag_offset: Option<Point>,
}

/// The mathematical model of an [`EditorState`]: the same data with the
/// vectors read as sequences.
pub ghost struct StateModel {
    pub element: EditorElements,
    pub element_thickness: i64,
    pub element_color: Rgba,
    pub element_color_index: usize,
    pub stack: Seq<EditorElement>,
    pub stack_undo: Seq<Seq<EditorElement>>,
    pub stack_redo: Seq<Seq<EditorElement>>,
    pub current: Option<Point>,
    pub button: Option<EditorButtons>,
    pub draw: bool,
    pub snap: bool,
    pub grid: u16,
    pub help: bool,
    pub drag: bool,
    pub drag_offset: Option<Point>,
}

impl View for EditorState {
    type V = StateModel;

    open spec fn view(&self) -> StateModel {
        StateModel {
            element: self.element,
            element_thickness: self.element_thickness,
            element_color: self.element_color,
            element_color_index: self.element_color_index,
            stack: self.stack@,
            stack_undo: self.stack_undo@.map_values(|v: Vec<EditorElement>| v@),
            stack_redo: self.stack_redo@.map_values(|v: Vec<EditorElement>| v@),
            current: self.current,
            button: self.button,
            draw: self.draw,
            snap: self.snap,
            grid: self.grid,
            help: self.help,
            drag: self.drag,
            drag_offset: self.drag_offset,
        }
    }
}

/// The machine limits under which the engine's arithmetic is exact: the
/// scene within `FIELD_LIMIT`, a pending gesture anchor within
/// `SNAP_LIMIT` and a stored drag offset within `OFFSET_LIMIT`.
pub open spec fn model_in_range(m: StateModel) -> bool {
    &&& scene_in_range(m.stack, FIELD_LIMIT as int)
    &&& (m.current matches Some(p) ==> in_range(p, SNAP_LIMIT as int))
    &&& (m.drag_offset matches Some(p) ==> in_range(p, OFFSET_LIMIT as int))
    &&& 0 < m.element_thickness <= FIELD_LIMIT
}

/// Saving pushes the present scene onto the undo stack and clears redo.
pub open spec fn spec_save(m: StateModel) -> StateModel {
    StateModel {
        stack_undo: m.stack_undo.push(m.stack),
        stack_redo: Seq::empty(),
        ..m
    }
}

/// Undo swaps the present scene for the most recently saved one; with
/// nothing saved it changes nothing.
pub open spec fn spec_undo(m: StateModel) -> StateModel {
    if m.stack_undo.len() == 0 {
        m
    } else {
        StateModel {
            stack: m.stack_undo.last(),
            stack_undo: m.stack_undo.drop_last(),
            stack_redo: m.stack_redo.push(m.stack),
            ..m
        }
    }
}

/// Redo swaps the present scene for the most recently undone one; with
/// nothing undone it changes nothing.
pub open spec fn spec_redo(m: StateModel) -> StateModel {
    if m.stack_redo.len() == 0 {
        m
    } else {
        StateModel {
            stack: m.stack_redo.last(),
            stack_undo: m.stack_undo.push(m.stack),
            stack_redo: m.stack_redo.drop_last(),
            ..m
        }
    }
}

/// The grid multiple nearest to `x`, ties away from zero.
pub open spec fn grid_round(x: int) -> int {
    if x >= 0 {
        SIZE_GRID * ((x + SIZE_GRID / 2) / (SIZE_GRID as int))
    } else {
        -(SIZE_GRID * (((-x) + SIZE_GRID / 2) / (SIZE_GRID as int)))
    }
}

/// One axis of the grid stage: move to the nearest grid multiple when it
/// lies within the snap tolerance.
pub open spec fn spec_grid_axis(x: i64) -> i64 {
    let nearest = grid_round(x as int);
    if abs_int(x - nearest) < STICKY {
        nearest as i64
    } else {
        x
    }
}

/// The grid stage: each axis independently, only while a grid is shown.
pub open spec fn spec_grid_stage(raw: Point, grid: u16) -> Point {
    if grid > 0 {
        Point { x: spec_grid_axis(raw.x), y: spec_grid_axis(raw.y) }
    } else {
        raw
    }
}

/// Lock one axis to `line` when the raw coordinate lies within the snap
/// tolerance of it; otherwise keep the coordinate snapped so far.
pub open spec fn spec_axis_lock(raw_c: i64, line: int, cur: i64) -> i64 {
    if abs_int(raw_c - line) < STICKY {
        line as i64
    } else {
        cur
    }
}

/// One reference frame of size `fw` x `fh`, centered on the canvas: its
/// four edges are snap lines, the right and bottom checks overriding the
/// left and top ones.
pub open spec fn spec_frame_stage(
    raw: Point,
    cur: Point,
    width: i64,
    height: i64,
    fw: i64,
    fh: i64,
) -> Point {
    let left = width as int / 2 - fw as int / 2;
    let top = height as int / 2 - fh as int / 2;
    let x1 = spec_axis_lock(raw.x, left, cur.x);
    let x2 = spec_axis_lock(raw.x, left + fw, x1);
    let y1 = spec_axis_lock(raw.y, top, cur.y);
    let y2 = spec_axis_lock(raw.y, top + fh, y1);
    Point { x: x2, y: y2 }
}

/// The canvas-edge stage: zero and the canvas extent on each axis.
pub open spec fn spec_canvas_stage(raw: Point, cur: Point, width: i64, height: i64) -> Point {
    let x1 = spec_axis_lock(raw.x, 0, cur.x);
    let x2 = spec_axis_lock(raw.x, width as int, x1);
    let y1 = spec_axis_lock(raw.y, 0, cur.y);
    let y2 = spec_axis_lock(raw.y, height as int, y1);
    Point { x: x2, y: y2 }
}

/// Replace the whole position by `target` when the raw pointer lies
/// within the anchor snap radius of it.
pub open spec fn spec_point_lock(raw: Point, target: Point, cur: Point) -> Point {
    if dist_sq(raw, target) <= STICKY_ELEMENT * STICKY_ELEMENT {
        target
    } else {
        cur
    }
}

/// Lock the x axis to `tx` when the raw x coordinate lies within the
/// per-axis anchor tolerance of it.
pub open spec fn spec_point_axis_x(raw: Point, tx: i64, cur: Point) -> Point {
    if abs_int(raw.x - tx) < SIZE_POINT {
        Point { x: tx, y: cur.y }
    } else {
        cur
    }
}

pub open spec fn spec_point_axis_y(raw: Point, ty: i64, cur: Point) -> Point {
    if abs_int(raw.y - ty) < SIZE_POINT {
        Point { x: cur.x, y: ty }
    } else {
        cur
    }
}

/// The snap contribution of one element. A line offers its endpoints,
/// first as whole-point targets, then axis by axis. A circle offers its
/// center and the four axis-aligned rim points the same way, and then a
/// radial target: the point of the rim in the direction of the raw
/// pointer, built with integer rounding from the integer distance. Other
/// elements contribute nothing.
pub open spec fn spec_elem_snap_one(e: EditorElement, raw: Point, cur: Point) -> Point {
    match e.value {
        EditorValues::Line { point_a, point_b, .. } => {
            let c1 = spec_point_lock(raw, point_a, cur);
            let c2 = spec_point_lock(raw, point_b, c1);
            let c3 = spec_point_axis_x(raw, point_a.x, c2);
            let c4 = spec_point_axis_y(raw, point_a.y, c3);
            let c5 = spec_point_axis_x(raw, point_b.x, c4);
            spec_point_axis_y(raw, point_b.y, c5)
        },
        EditorValues::Circle { center, radius } => {
            let p1 = Point { x: center.x, y: (center.y + radius) as i64 };
            let p2 = Point { x: center.x, y: (center.y - radius) as i64 };
            let p3 = Point { x: (center.x + radius) as i64, y: center.y };
            let p4 = Point { x: (center.x - radius) as i64, y: center.y };
            let c1 = spec_point_lock(raw, center, cur);
            let c2 = spec_point_lock(raw, p1, c1);
            let c3 = spec_point_lock(raw, p2, c2);
            let c4 = spec_point_lock(raw, p3, c3);
            let c5 = spec_point_lock(raw, p4, c4);
            let c6 = spec_point_axis_x(raw, center.x, c5);
            let c7 = spec_point_axis_y(raw, center.y, c6);
            let c8 = spec_point_axis_y(raw, p1.y, c7);
            let c9 = spec_point_axis_y(raw, p2.y, c8);
            let c10 = spec_point_axis_x(raw, p3.x, c9);
            let c11 = spec_point_axis_x(raw, p4.x, c10);
            let d = sqrt_floor(dist_sq(raw, center));
            if d > 0 {
                let rim = Point {
                    x: (center.x + round_div((raw.x - center.x) * radius, d)) as i64,
                    y: (center.y + round_div((raw.y - center.y) * radius, d)) as i64,
                };
                let c12 = spec_point_axis_x(raw, rim.x, c11);
                spec_point_axis_y(raw, rim.y, c12)
            } else {
                c11
            }
        },
        _ => cur,
    }
}

/// The element-anchor stage: every element in insertion order, later
/// snaps overriding earlier ones.
pub open spec fn spec_elem_stage(s: Seq<EditorElement>, raw: Point, cur: Point) -> Point
    decreases s.len(),
{
    if s.len() == 0 {
        cur
    } else {
        spec_elem_stage(s.drop_first(), raw, spec_elem_snap_one(s[0], raw, cur))
    }
}

/// The resolved pointer position: the raw position when snapping is off;
/// otherwise the grid, standard frame, HD frame, canvas-edge and
/// element-anchor stages in that order, each judging the raw position
/// but overriding the axes snapped by earlier stages.
pub open spec fn spec_position(
    s: Seq<EditorElement>,
    raw: Point,
    width: i64,
    height: i64,
    snap: bool,
    grid: u16,
) -> Point {
    if !snap {
        raw
    } else {
        let p1 = spec_grid_stage(raw, grid);
        let p2 = spec_frame_stage(raw, p1, width, height, DISPLAY_WIDTH, DISPLAY_HEIGHT);
        let p3 = spec_frame_stage(raw, p2, width, height, DISPLAY_HD_WIDTH, DISPLAY_HD_HEIGHT);
        let p4 = spec_canvas_stage(raw, p3, width, height);
        spec_elem_stage(s, raw, p4)
    }
}

/// The smallest x coordinate any element of the (non-empty) scene
/// reaches.
pub open spec fn scene_min_x(s: Seq<EditorElement>) -> int
    decreases s.len(),
{
    if s.len() == 0 {
        0
    } else if s.len() == 1 {
        bbox_min_x(s[0].value)
    } else {
        min_int(scene_min_x(s.drop_last()), bbox_min_x(s.last().value))
    }
}

pub open spec fn scene_min_y(s: Seq<EditorElement>) -> int
    decreases s.len(),
{
    if s.len() == 0 {
        0
    } else if s.len() == 1 {
        bbox_min_y(s[0].value)
    } else {
        min_int(scene_min_y(s.drop_last()), bbox_min_y(s.last().value))
    }
}

pub open spec fn scene_max_x(s: Seq<EditorElement>) -> int
    decreases s.len(),
{
    if s.len() == 0 {
        0
    } else if s.len() == 1 {
        bbox_max_x(s[0].value)
    } else {
        max_int(scene_max_x(s.drop_last()), bbox_max_x(s.last().value))
    }
}

pub open spec fn scene_max_y(s: Seq<EditorElement>) -> int
    decreases s.len(),
{
    if s.len() == 0 {
        0
    } else if s.len() == 1 {
        bbox_max_y(s[0].value)
    } else {
        max_int(scene_max_y(s.drop_last()), bbox_max_y(s.last().value))
    }
}

/// The scene prepared for export as a textual draw routine: the extent
/// of the tight bounding box over all elements, and every element
/// translated so that the box's top-left corner is the origin.
pub struct ExportData {
    pub width: i64,
    pub height: i64,
    pub elements: Vec<EditorElement>,
}

/// The element's axis-aligned extent (stored rotation treated as zero,
/// as every element this editor creates carries rotation zero).
fn elem_bounds(e: &EditorElement) -> (r: (i64, i64, i64, i64))
    requires
        elem_in_range(*e, FIELD_LIMIT as int),
        elem_wf(*e),
    ensures
        r.0 == bbox_min_x(e.value),
        r.1 == bbox_min_y(e.value),
        r.2 == bbox_max_x(e.value),
        r.3 == bbox_max_y(e.value),
        -2 * FIELD_LIMIT <= r.0 <= 2 * FIELD_LIMIT,
        -2 * FIELD_LIMIT <= r.1 <= 2 * FIELD_LIMIT,
        -2 * FIELD_LIMIT <= r.2 <= 2 * FIELD_LIMIT,
        -2 * FIELD_LIMIT <= r.3 <= 2 * FIELD_LIMIT,
{
    match e.value {
        EditorValues::Line { point_a, point_b, .. } => {
            let mnx = if point_a.x <= point_b.x { point_a.x } else { point_b.x };
            let mny = if point_a.y <= point_b.y { point_a.y } else { point_b.y };
            let mxx = if point_a.x >= point_b.x { point_a.x } else { point_b.x };
            let mxy = if point_a.y >= point_b.y { point_a.y } else { point_b.y };
            (mnx, mny, mxx, mxy)
        },
        EditorValues::Circle { center, radius } => {
            (center.x - radius, center.y - radius, center.x + radius, center.y + radius)
        },
        EditorValues::Hexagon { center, radius, .. } => {
            (center.x - radius, center.y - radius, center.x + radius, center.y + radius)
        },
        EditorValues::Ellipse { center, width, height, .. } => {
            let hw = width / 2;
            let hh = height / 2;
            (center.x - hw, center.y - hh, center.x + hw, center.y + hh)
        },
        EditorValues::Rectangle { point, width, height, .. } => {
            (point.x, point.y, point.x + width, point.y + height)
        },
        EditorValues::Triangle { point_a, point_b, point_c } => {
            let mut mnx = if point_a.x <= point_b.x { point_a.x } else { point_b.x };
            if point_c.x < mnx {
                mnx = point_c.x;
            }
            let mut mny = if point_a.y <= point_b.y { point_a.y } else { point_b.y };
            if point_c.y < mny {
                mny = point_c.y;
            }
            let mut mxx = if point_a.x >= point_b.x { point_a.x } else { point_b.x };
            if point_c.x > mxx {
                mxx = point_c.x;
            }
            let mut mxy = if point_a.y >= point_b.y { point_a.y } else { point_b.y };
            if point_c.y > mxy {
                mxy = point_c.y;
            }
            (mnx, mny, mxx, mxy)
        },
    }
}

/// The element shifted by `(dx, dy)`.
fn translated(e: &EditorElement, dx: i64, dy: i64) -> (r: EditorElement)
    requires
        elem_in_range(*e, FIELD_LIMIT as int),
        -4 * FIELD_LIMIT <= dx <= 4 * FIELD_LIMIT,
        -4 * FIELD_LIMIT <= dy <= 4 * FIELD_LIMIT,
    ensures
        r == translate_element(*e, dx as int, dy as int),
{
    let value = match e.value {
        EditorValues::Line { point_a, point_b, thickness } => EditorValues::Line {
            point_a: Point { x: point_a.x + dx, y: point_a.y + dy },
            point_b: Point { x: point_b.x + dx, y: point_b.y + dy },
            thickness,
        },
        EditorValues::Circle { center, radius } => EditorValues::Circle {
            center: Point { x: center.x + dx, y: center.y + dy },
            radius,
        },
        EditorValues::Ellipse { center, width, height, rotation } => EditorValues::Ellipse {
            center: Point { x: center.x + dx, y: center.y + dy },
            width,
            height,
            rotation,
        },
        EditorValues::Rectangle { point, width, height, rotation } => EditorValues::Rectangle {
            point: Point { x: point.x + dx, y: point.y + dy },
            width,
            height,
            rotation,
        },
        EditorValues::Triangle { point_a, point_b, point_c } => EditorValues::Triangle {
            point_a: Point { x: point_a.x + dx, y: point_a.y + dy },
            point_b: Point { x: point_b.x + dx, y: point_b.y + dy },
            point_c: Point { x: point_c.x + dx, y: point_c.y + dy },
        },
        EditorValues::Hexagon { center, radius, vertical } => EditorValues::Hexagon {
            center: Point { x: center.x + dx, y: center.y + dy },
            radius,
            vertical,
        },
    };
    EditorElement { color: e.color, value }
}

/// A multiple of the grid pitch is its own nearest grid multiple.
pub proof fn lemma_grid_round_fixed(x: i64)
    requires
        x % SIZE_GRID == 0,
    ensures
        grid_round(x as int) == x,
{
    if x >= 0 {
        let k = x as int / SIZE_GRID as int;
        assert(x == SIZE_GRID * k);
        assert((SIZE_GRID * k + SIZE_GRID / 2) / (SIZE_GRID as int) == k) by (nonlinear_arith)
            requires
                0 <= k,
        ;
    } else {
        let k = (-x) as int / SIZE_GRID as int;
        assert(-x == SIZE_GRID * k);
        assert((SIZE_GRID * k + SIZE_GRID / 2) / (SIZE_GRID as int) == k) by (nonlinear_arith)
            requires
                0 <= k,
        ;
    }
}

/// A coordinate clear of a snap line: at least the tolerance away from
/// it, or exactly on it (locking to it then changes nothing).
pub open spec fn line_clear(c: i64, line: int) -> bool {
    abs_int(c - line) >= STICKY || c == line
}

/// Grid snap idempotence: a position already exactly on grid multiples
/// comes back from the resolver unchanged, provided no element anchors
/// exist and each reference-frame and canvas snap line is clear of it.
pub proof fn lemma_grid_snap_idempotent(
    s: Seq<EditorElement>,
    raw: Point,
    width: i64,
    height: i64,
    grid: u16,
)
    requires
        s.len() == 0,
        raw.x % SIZE_GRID == 0,
        raw.y % SIZE_GRID == 0,
        line_clear(raw.x, width as int / 2 - DISPLAY_WIDTH as int / 2),
        line_clear(raw.x, width as int / 2 - DISPLAY_WIDTH as int / 2 + DISPLAY_WIDTH),
        line_clear(raw.x, width as int / 2 - DISPLAY_HD_WIDTH as int / 2),
        line_clear(raw.x, width as int / 2 - DISPLAY_HD_WIDTH as int / 2 + DISPLAY_HD_WIDTH),
        line_clear(raw.y, height as int / 2 - DISPLAY_HEIGHT as int / 2),
        line_clear(raw.y, height as int / 2 - DISPLAY_HEIGHT as int / 2 + DISPLAY_HEIGHT),
        line_clear(raw.y, height as int / 2 - DISPLAY_HD_HEIGHT as int / 2),
        line_clear(raw.y, height as int / 2 - DISPLAY_HD_HEIGHT as int / 2 + DISPLAY_HD_HEIGHT),
        line_clear(raw.x, 0),
        line_clear(raw.x, width as int),
        line_clear(raw.y, 0),
        line_clear(raw.y, height as int),
    ensures
        spec_position(s, raw, width, height, true, grid) == raw,
{
    lemma_grid_round_fixed(raw.x);
    lemma_grid_round_fixed(raw.y);
}

/// One axis of the grid stage.
fn grid_axis(x: i64) -> (r: i64)
    requires
        -COORD_LIMIT <= x <= COORD_LIMIT,
    ensures
        r == spec_grid_axis(x),
        -COORD_LIMIT - SIZE_GRID <= r <= COORD_LIMIT + SIZE_GRID,
{
    let nearest: i64 = if x >= 0 {
        SIZE_GRID * ((x + SIZE_GRID / 2) / SIZE_GRID)
    } else {
        -(SIZE_GRID * (((-x) + SIZE_GRID / 2) / SIZE_GRID))
    };
    assert(nearest == grid_round(x as int));
    let d = x - nearest;
    if -STICKY < d && d < STICKY {
        nearest
    } else {
        x
    }
}

/// Lock one axis to a snap line within tolerance.
fn axis_lock(raw_c: i64, line: i64, cur: i64) -> (r: i64)
    requires
        -COORD_LIMIT <= raw_c <= COORD_LIMIT,
        -2_000_000 <= line <= 2_000_000,
        -SNAP_LIMIT <= cur <= SNAP_LIMIT,
    ensures
        r == spec_axis_lock(raw_c, line as int, cur),
        -SNAP_LIMIT <= r <= SNAP_LIMIT,
{
    let d = raw_c - line;
    if -STICKY < d && d < STICKY {
        line
    } else {
        cur
    }
}

/// One centered reference frame: four snap lines.
fn frame_stage(raw: Point, cur: Point, width: i64, height: i64, fw: i64, fh: i64) -> (r: Point)
    requires
        in_range(raw, COORD_LIMIT as int),
        in_range(cur, SNAP_LIMIT as int),
        0 <= width <= COORD_LIMIT,
        0 <= height <= COORD_LIMIT,
        0 <= fw <= 2000,
        0 <= fh <= 2000,
    ensures
        r == spec_frame_stage(raw, cur, width, height, fw, fh),
        in_range(r, SNAP_LIMIT as int),
{
    let left = width / 2 - fw / 2;
    let top = height / 2 - fh / 2;
    let x1 = axis_lock(raw.x, left, cur.x);
    let x2 = axis_lock(raw.x, left + fw, x1);
    let y1 = axis_lock(raw.y, top, cur.y);
    let y2 = axis_lock(raw.y, top + fh, y1);
    Point { x: x2, y: y2 }
}

/// Whole-point anchor snap within the anchor radius.
fn point_lock(raw: Point, target: Point, cur: Point) -> (r: Point)
    requires
        in_range(raw, COORD_LIMIT as int),
        in_range(target, SNAP_LIMIT as int),
        in_range(cur, SNAP_LIMIT as int),
    ensures
        r == spec_point_lock(raw, target, cur),
        in_range(r, SNAP_LIMIT as int),
{
    if dist_sq_i64(raw, target) <= STICKY_ELEMENT * STICKY_ELEMENT {
        target
    } else {
        cur
    }
}

/// Per-axis anchor snap, x axis.
fn point_axis_x(raw: Point, tx: i64, cur: Point) -> (r: Point)
    requires
        in_range(raw, COORD_LIMIT as int),
        -SNAP_LIMIT <= tx <= SNAP_LIMIT,
        in_range(cur, SNAP_LIMIT as int),
    ensures
        r == spec_point_axis_x(raw, tx, cur),
        in_range(r, SNAP_LIMIT as int),
{
    let d = raw.x - tx;
    if -SIZE_POINT < d && d < SIZE_POINT {
        Point { x: tx, y: cur.y }
    } else {
        cur
    }
}

/// Per-axis anchor snap, y axis.
fn point_axis_y(raw: Point, ty: i64, cur: Point) -> (r: Point)
    requires
        in_range(raw, COORD_LIMIT as int),
        -SNAP_LIMIT <= ty <= SNAP_LIMIT,
        in_range(cur, SNAP_LIMIT as int),
    ensures
        r == spec_point_axis_y(raw, ty, cur),
        in_range(r, SNAP_LIMIT as int),
{
    let d = raw.y - ty;
    if -SIZE_POINT < d && d < SIZE_POINT {
        Point { x: cur.x, y: ty }
    } else {
        cur
    }
}

/// The snap contribution of one element.
fn elem_snap_one(e: &EditorElement, raw: Point, cur: Point) -> (r: Point)
    requires
        elem_in_range(*e, FIELD_LIMIT as int),
        in_range(raw, COORD_LIMIT as int),
        in_range(cur, SNAP_LIMIT as int),
    ensures
        r == spec_elem_snap_one(*e, raw, cur),
        in_range(r, SNAP_LIMIT as int),
{
    match e.value {
        EditorValues::Line { point_a, point_b, .. } => {
            let c1 = point_lock(raw, point_a, cur);
            let c2 = point_lock(raw, point_b, c1);
            let c3 = point_axis_x(raw, point_a.x, c2);
            let c4 = point_axis_y(raw, point_a.y, c3);
            let c5 = point_axis_x(raw, point_b.x, c4);
            point_axis_y(raw, point_b.y, c5)
        },
        EditorValues::Circle { center, radius } => {
            let p1 = Point { x: center.x, y: center.y + radius };
            let p2 = Point { x: center.x, y: center.y - radius };
            let p3 = Point { x: center.x + radius, y: center.y };
            let p4 = Point { x: center.x - radius, y: center.y };
            let c1 = point_lock(raw, center, cur);
            let c2 = point_lock(raw, p1, c1);
            let c3 = point_lock(raw, p2, c2);
            let c4 = point_lock(raw, p3, c3);
            let c5 = point_lock(raw, p4, c4);
            let c6 = point_axis_x(raw, center.x, c5);
            let c7 = point_axis_y(raw, center.y, c6);
            let c8 = point_axis_y(raw, p1.y, c7);
            let c9 = point_axis_y(raw, p2.y, c8);
            let c10 = point_axis_x(raw, p3.x, c9);
            let c11 = point_axis_x(raw, p4.x, c10);
            let d2 = dist_sq_i64(raw, center);
            let d = isqrt(d2);
            if d > 0 {
                let dx = raw.x - center.x;
                let dy = raw.y - center.y;
                proof {
                    lemma_circle_rim_bounds(raw, center, radius, dx as int, dy as int, d as int);
                }
                let rim_x = center.x + round_div_i64(dx * radius, d);
                let rim_y = center.y + round_div_i64(dy * radius, d);
                let c12 = point_axis_x(raw, rim_x, c11);
                point_axis_y(raw, rim_y, c12)
            } else {
                c11
            }
        },
        _ => cur,
    }
}

/// Bounds for the radial snap target of a circle: each product fits the
/// rounding division, and the rounded offset never exceeds the radius'
/// magnitude by more than one.
proof fn lemma_circle_rim_bounds(raw: Point, center: Point, radius: i64, dx: int, dy: int, d: int)
    requires
        in_range(raw, COORD_LIMIT as int),
        in_range(center, FIELD_LIMIT as int),
        -FIELD_LIMIT <= radius <= FIELD_LIMIT,
        dx == raw.x - center.x,
        dy == raw.y - center.y,
        d == sqrt_floor(dist_sq(raw, center)),
        d > 0,
    ensures
        -2_000_000_000_000_000_000 <= dx * radius <= 2_000_000_000_000_000_000,
        -2_000_000_000_000_000_000 <= dy * radius <= 2_000_000_000_000_000_000,
        d <= 2_000_000_000_000_000_000,
        -FIELD_LIMIT - 1 <= round_div(dx * radius, d) <= FIELD_LIMIT + 1,
        -FIELD_LIMIT - 1 <= round_div(dy * radius, d) <= FIELD_LIMIT + 1,
{
    let d2 = dist_sq(raw, center);
    lemma_square_bound(dx, 401_000_000);
    lemma_square_bound(dy, 401_000_000);
    assert(401_000_000int * 401_000_000 == 160_801_000_000_000_000) by (nonlinear_arith);
    assert(2_900_000_000int * 2_900_000_000 == 8_410_000_000_000_000_000) by (nonlinear_arith);
    crate::geometry::lemma_sqrt_floor_le(d2, 2_900_000_000);
    let m = abs_int(radius as int);
    assert(abs_int(dx) * abs_int(dx) == dx * dx) by (nonlinear_arith);
    assert(abs_int(dy) * abs_int(dy) == dy * dy) by (nonlinear_arith);
    lemma_sqrt_floor_ge(d2, abs_int(dx));
    lemma_sqrt_floor_ge(d2, abs_int(dy));
    assert(-(m * d) <= dx * radius <= m * d) by (nonlinear_arith)
        requires
            abs_int(dx) <= d,
            m == abs_int(radius as int),
            0 < d,
    ;
    assert(-(m * d) <= dy * radius <= m * d) by (nonlinear_arith)
        requires
            abs_int(dy) <= d,
            m == abs_int(radius as int),
            0 < d,
    ;
    assert(m * d <= 2_000_000_000_000_000_000) by (nonlinear_arith)
        requires
            0 <= m <= FIELD_LIMIT,
            0 < d <= 2_900_000_000,
    ;
    lemma_round_div_bound(dx * radius, d, m);
    lemma_round_div_bound(dy * radius, d, m);
}

/// Is the point within the engine's scene-field limit?
fn point_in_limit(p: Point) -> (b: bool)
    ensures
        b == in_range(p, FIELD_LIMIT as int),
{
    -FIELD_LIMIT <= p.x && p.x <= FIELD_LIMIT && -FIELD_LIMIT <= p.y && p.y <= FIELD_LIMIT
}

/// Are all scalar fields of the element within the engine's limit?
fn elem_fields_in_limit(e: &EditorElement) -> (b: bool)
    ensures
        b == elem_in_range(*e, FIELD_LIMIT as int),
{
    match e.value {
        EditorValues::Line { point_a, point_b, thickness } => point_in_limit(point_a)
            && point_in_limit(point_b) && -FIELD_LIMIT <= thickness && thickness <= FIELD_LIMIT,
        EditorValues::Circle { center, radius } => point_in_limit(center) && -FIELD_LIMIT
            <= radius && radius <= FIELD_LIMIT,
        EditorValues::Ellipse { center, width, height, rotation } => point_in_limit(center)
            && -FIELD_LIMIT <= width && width <= FIELD_LIMIT && -FIELD_LIMIT <= height && height
            <= FIELD_LIMIT && -FIELD_LIMIT <= rotation && rotation <= FIELD_LIMIT,
        EditorValues::Rectangle { point, width, height, rotation } => point_in_limit(point)
            && -FIELD_LIMIT <= width && width <= FIELD_LIMIT && -FIELD_LIMIT <= height && height
            <= FIELD_LIMIT && -FIELD_LIMIT <= rotation && rotation <= FIELD_LIMIT,
        EditorValues::Triangle { point_a, point_b, point_c } => point_in_limit(point_a)
            && point_in_limit(point_b) && point_in_limit(point_c),
        EditorValues::Hexagon { center, radius, .. } => point_in_limit(center) && -FIELD_LIMIT
            <= radius && radius <= FIELD_LIMIT,
    }
}

/// Does the element meet its parameter invariant?
fn elem_wf_check(e: &EditorElement) -> (b: bool)
    ensures
        b == elem_wf(*e),
{
    match e.value {
        EditorValues::Line { thickness, .. } => thickness > 0,
        EditorValues::Circle { radius, .. } => radius >= 0,
        EditorValues::Ellipse { width, height, .. } => width >= 0 && height >= 0,
        EditorValues::Rectangle { width, height, .. } => width >= 0 && height >= 0,
        EditorValues::Triangle { .. } => true,
        EditorValues::Hexagon { radius, .. } => radius >= 0,
    }
}

/// A copy of the scene, element for element.
fn clone_scene(v: &Vec<EditorElement>) -> (r: Vec<EditorElement>)
    ensures
        r@ == v@,
{
    let mut r: Vec<EditorElement> = Vec::new();
    let mut i: usize = 0;
    while i < v.len()
        invariant
            0 <= i <= v.len(),
            r@ == v@.take(i as int),
        decreases v.len() - i,
    {
        r.push(v[i]);
        proof {
            assert(v@.take(i as int).push(v@[i as int]) =~= v@.take(i + 1));
        }
        i = i + 1;
    }
    proof {
        assert(v@.take(v@.len() as int) =~= v@);
    }
    r
}

impl EditorState {
    /// A fresh editor: empty scene and history, line tool selected,
    /// drawing mode, snapping on, both grids shown.
    pub fn new() -> (s: EditorState)
        ensures
            s@.stack =~= Seq::<EditorElement>::empty(),
            s@.stack_undo =~= Seq::<Seq<EditorElement>>::empty(),
            s@.stack_redo =~= Seq::<Seq<EditorElement>>::empty(),
            s@.element == EditorElements::Line,
            s@.element_thickness == 1,
            s@.element_color == (Rgba { r: 255, g: 255, b: 255, a: 128 }),
            s@.element_color_index == 0,
            s@.current is None,
            s@.button == Some(EditorButtons::Line),
            s@.draw,
            s@.snap,
            s@.grid == 2,
            !s@.help,
            !s@.drag,
            s@.drag_offset is None,
            model_in_range(s@),
    {
        let s = EditorState {
            stack: Vec::new(),
            stack_undo: Vec::new(),
            stack_redo: Vec::new(),
            element: EditorElements::Line,
            element_thickness: 1,
            element_color: Rgba { r: 255, g: 255, b: 255, a: 128 },
            element_color_index: 0,
            current: None,
            button: Some(EditorButtons::Line),
            draw: true,
            snap: true,
            grid: 2,
            help: false,
            drag: false,
            drag_offset: None,
        };
        proof {
            assert(s.stack_undo@.map_values(|v: Vec<EditorElement>| v@)
                =~= Seq::<Seq<EditorElement>>::empty());
            assert(s.stack_redo@.map_values(|v: Vec<EditorElement>| v@)
                =~= Seq::<Seq<EditorElement>>::empty());
        }
        s
    }

    /// Record the present scene for undo; any redo history is dropped.
    pub fn save(&mut self)
        ensures
            final(self)@ == spec_save(old(self)@),
    {
        let snapshot = clone_scene(&self.stack);
        self.stack_undo.push(snapshot);
        self.stack_redo.clear();
        proof {
            assert(self.stack_undo@.map_values(|v: Vec<EditorElement>| v@)
                =~= old(self).stack_undo@.map_values(|v: Vec<EditorElement>| v@)
                    .push(old(self).stack@));
            assert(self.stack_redo@.map_values(|v: Vec<EditorElement>| v@)
                =~= Seq::<Seq<EditorElement>>::empty());
            assert(final(self)@ =~= spec_save(old(self)@));
        }
    }

    /// Return to the most recently saved scene, if any.
    pub fn undo(&mut self)
        ensures
            final(self)@ == spec_undo(old(self)@),
    {
        if let Some(stack) = self.stack_undo.pop() {
            let snapshot = clone_scene(&self.stack);
            self.stack_redo.push(snapshot);
            self.stack = stack;
            proof {
                assert(self.stack_undo@.map_values(|v: Vec<EditorElement>| v@)
                    =~= old(self).stack_undo@.map_values(|v: Vec<EditorElement>| v@)
                        .drop_last());
                assert(self.stack_redo@.map_values(|v: Vec<EditorElement>| v@)
                    =~= old(self).stack_redo@.map_values(|v: Vec<EditorElement>| v@)
                        .push(old(self).stack@));
                assert(final(self)@ =~= spec_undo(old(self)@));
            }
        }
    }

    /// Toggle snapping, as the snap shortcut does.
    pub fn toggle_snap(&mut self)
        ensures
            final(self)@ == (StateModel { snap: !old(self)@.snap, ..old(self)@ }),
    {
        self.snap = !self.snap;
        proof {
            assert(self@ =~= (StateModel { snap: !old(self)@.snap, ..old(self)@ }));
        }
    }

    /// Step the grid level through off, fine, fine plus coarse and one
    /// spare level, then back to off.
    pub fn cycle_grid(&mut self)
        ensures
            final(self)@ == (StateModel {
                grid: if old(self)@.grid > 2 {
                    0
                } else {
                    (old(self)@.grid + 1) as u16
                },
                ..old(self)@
            }),
    {
        if self.grid > 2 {
            self.grid = 0;
        } else {
            self.grid = self.grid + 1;
        }
        proof {
            assert(self@ =~= (StateModel {
                grid: if old(self)@.grid > 2 {
                    0
                } else {
                    (old(self)@.grid + 1) as u16
                },
                ..old(self)@
            }));
        }
    }

    /// Show or hide the help overlay, as holding and releasing the help
    /// key does.
    pub fn set_help(&mut self, value: bool)
        ensures
            final(self)@ == (StateModel { help: value, ..old(self)@ }),
    {
        self.help = value;
        proof {
            assert(self@ =~= (StateModel { help: value, ..old(self)@ }));
        }
    }

    /// Select the shape kind the next gesture will draw.
    pub fn set_element(&mut self, element: EditorElements)
        ensures
            final(self)@ == (StateModel { element: element, ..old(self)@ }),
    {
        self.element = element;
        proof {
            assert(self@ =~= (StateModel { element: element, ..old(self)@ }));
        }
    }

    /// Do the machine limits of the engine hold of this state? True of
    /// every state an interactive session can reach; an unverified host
    /// can test it before handing the state to the engine.
    pub fn within_limits(&self) -> (b: bool)
        ensures
            b == model_in_range(self@),
    {
        if !(0 < self.element_thickness && self.element_thickness <= FIELD_LIMIT) {
            return false;
        }
        match self.current {
            Some(p) => {
                if !(-SNAP_LIMIT <= p.x && p.x <= SNAP_LIMIT && -SNAP_LIMIT <= p.y && p.y
                    <= SNAP_LIMIT) {
                    return false;
                }
            },
            None => {},
        }
        match self.drag_offset {
            Some(p) => {
                if !(-OFFSET_LIMIT <= p.x && p.x <= OFFSET_LIMIT && -OFFSET_LIMIT <= p.y && p.y
                    <= OFFSET_LIMIT) {
                    return false;
                }
            },
            None => {},
        }
        let mut i: usize = 0;
        while i < self.stack.len()
            invariant
                0 <= i <= self.stack@.len(),
                forall|k: int| 0 <= k < i ==> elem_in_range(#[trigger] self.stack@[k],
                    FIELD_LIMIT as int),
            decreases self.stack@.len() - i,
        {
            if !elem_fields_in_limit(&self.stack[i]) {
                return false;
            }
            i = i + 1;
        }
        true
    }

    /// Does the scene meet the element invariants and the engine's
    /// machine limits, as `export` expects? True of every scene this
    /// editor builds; an unverified host can test it before exporting.
    pub fn scene_ok(&self) -> (b: bool)
        ensures
            b == (scene_in_range(self.stack@, FIELD_LIMIT as int) && scene_wf(self.stack@)),
    {
        let mut i: usize = 0;
        while i < self.stack.len()
            invariant
                0 <= i <= self.stack@.len(),
                forall|k: int| 0 <= k < i ==> elem_in_range(#[trigger] self.stack@[k],
                    FIELD_LIMIT as int) && elem_wf(self.stack@[k]),
            decreases self.stack@.len() - i,
        {
            if !elem_fields_in_limit(&self.stack[i]) {
                return false;
            }
            if !elem_wf_check(&self.stack[i]) {
                return false;
            }
            i = i + 1;
        }
        true
    }

    /// Prepare the scene for export as a textual draw routine: compute
    /// the tight bounding box over every element's extent and translate
    /// each element so the box's top-left corner becomes the origin.
    /// An empty scene exports as an empty routine with a zero box.
    pub fn export(&self) -> (r: ExportData)
        requires
            scene_in_range(self.stack@, FIELD_LIMIT as int),
            scene_wf(self.stack@),
        ensures
            r.elements@.len() == self.stack@.len(),
            self.stack@.len() == 0 ==> r.width == 0 && r.height == 0,
            self.stack@.len() > 0 ==> {
                &&& r.width == scene_max_x(self.stack@) - scene_min_x(self.stack@)
                &&& r.height == scene_max_y(self.stack@) - scene_min_y(self.stack@)
                &&& forall|i: int| 0 <= i < self.stack@.len() ==> r.elements@[i]
                    == translate_element(
                    #[trigger] self.stack@[i],
                    -scene_min_x(self.stack@),
                    -scene_min_y(self.stack@),
                )
            },
    {
        if self.stack.len() == 0 {
            return ExportData { width: 0, height: 0, elements: Vec::new() };
        }
        let b0 = elem_bounds(&self.stack[0]);
        let mut min_x = b0.0;
        let mut min_y = b0.1;
        let mut max_x = b0.2;
        let mut max_y = b0.3;
        let mut i: usize = 1;
        proof {
            assert(self.stack@.take(1).len() == 1);
            assert(self.stack@.take(1)[0] == self.stack@[0]);
        }
        while i < self.stack.len()
            invariant
                1 <= i <= self.stack@.len(),
                scene_in_range(self.stack@, FIELD_LIMIT as int),
                scene_wf(self.stack@),
                min_x == scene_min_x(self.stack@.take(i as int)),
                min_y == scene_min_y(self.stack@.take(i as int)),
                max_x == scene_max_x(self.stack@.take(i as int)),
                max_y == scene_max_y(self.stack@.take(i as int)),
                -2 * FIELD_LIMIT <= min_x <= 2 * FIELD_LIMIT,
                -2 * FIELD_LIMIT <= min_y <= 2 * FIELD_LIMIT,
                -2 * FIELD_LIMIT <= max_x <= 2 * FIELD_LIMIT,
                -2 * FIELD_LIMIT <= max_y <= 2 * FIELD_LIMIT,
            decreases self.stack@.len() - i,
        {
            let b = elem_bounds(&self.stack[i]);
            proof {
                assert(self.stack@.take(i as int + 1).drop_last() =~= self.stack@.take(
                    i as int));
                assert(self.stack@.take(i as int + 1).last() == self.stack@[i as int]);
            }
            if b.0 < min_x {
                min_x = b.0;
            }
            if b.1 < min_y {
                min_y = b.1;
            }
            if b.2 > max_x {
                max_x = b.2;
            }
            if b.3 > max_y {
                max_y = b.3;
            }
            i = i + 1;
        }
        proof {
            assert(self.stack@.take(self.stack@.len() as int) =~= self.stack@);
        }
        let mut elements: Vec<EditorElement> = Vec::new();
        let mut j: usize = 0;
        while j < self.stack.len()
            invariant
                0 <= j <= self.stack@.len(),
                scene_in_range(self.stack@, FIELD_LIMIT as int),
                -2 * FIELD_LIMIT <= min_x <= 2 * FIELD_LIMIT,
                -2 * FIELD_LIMIT <= min_y <= 2 * FIELD_LIMIT,
                elements@.len() == j,
                forall|k: int| 0 <= k < j ==> elements@[k] == translate_element(
                    #[trigger] self.stack@[k],
                    -min_x as int,
                    -min_y as int,
                ),
            decreases self.stack@.len() - j,
        {
            elements.push(translated(&self.stack[j], -min_x, -min_y));
            j = j + 1;
        }
        ExportData { width: max_x - min_x, height: max_y - min_y, elements }
    }

    /// The Snap Engine. Resolve a raw pointer position against the
    /// scene under the current snap and grid settings; with snapping
    /// off the raw position comes back unchanged.
    pub fn position(&self, raw: Point, width: i64, height: i64) -> (r: Point)
        requires
            in_range(raw, COORD_LIMIT as int),
            0 <= width <= COORD_LIMIT,
            0 <= height <= COORD_LIMIT,
            scene_in_range(self.stack@, FIELD_LIMIT as int),
        ensures
            r == spec_position(self.stack@, raw, width, height, self.snap, self.grid),
            in_range(r, SNAP_LIMIT as int),
    {
        if !self.snap {
            return raw;
        }
        let mut position_snap = raw;
        if self.grid > 0 {
            position_snap = Point { x: grid_axis(raw.x), y: grid_axis(raw.y) };
        }
        assert(position_snap == spec_grid_stage(raw, self.grid));

        position_snap = frame_stage(raw, position_snap, width, height, DISPLAY_WIDTH,
            DISPLAY_HEIGHT);
        position_snap = frame_stage(raw, position_snap, width, height, DISPLAY_HD_WIDTH,
            DISPLAY_HD_HEIGHT);

        let x1 = axis_lock(raw.x, 0, position_snap.x);
        let x2 = axis_lock(raw.x, width, x1);
        let y1 = axis_lock(raw.y, 0, position_snap.y);
        let y2 = axis_lock(raw.y, height, y1);
        position_snap = Point { x: x2, y: y2 };

        let ghost base = position_snap;
        assert(base == spec_canvas_stage(raw, spec_frame_stage(raw, spec_frame_stage(raw,
            spec_grid_stage(raw, self.grid), width, height, DISPLAY_WIDTH, DISPLAY_HEIGHT),
            width, height, DISPLAY_HD_WIDTH, DISPLAY_HD_HEIGHT), width, height));
        proof {
            assert(self.stack@.skip(0) =~= self.stack@);
        }

        let mut i: usize = 0;
        while i < self.stack.len()
            invariant
                0 <= i <= self.stack.len(),
                in_range(raw, COORD_LIMIT as int),
                in_range(position_snap, SNAP_LIMIT as int),
                scene_in_range(self.stack@, FIELD_LIMIT as int),
                spec_elem_stage(self.stack@.skip(i as int), raw, position_snap)
                    == spec_elem_stage(self.stack@, raw, base),
            decreases self.stack.len() - i,
        {
            proof {
                assert(self.stack@.skip(i as int)[0] == self.stack@[i as int]);
                assert(self.stack@.skip(i as int).drop_first() =~= self.stack@.skip(
                    i as int + 1));
            }
            position_snap = elem_snap_one(&self.stack[i], raw, position_snap);
            i = i + 1;
        }
        proof {
            assert(self.stack@.skip(self.stack@.len() as int).len() == 0);
        }
        position_snap
    }

    /// Return to the most recently undone scene, if any.
    pub fn redo(&mut self)
        ensures
            final(self)@ == spec_redo(old(self)@),
    {
        if let Some(stack) = self.stack_redo.pop() {
            let snapshot = clone_scene(&self.stack);
            self.stack_undo.push(snapshot);
            self.stack = stack;
            proof {
                assert(self.stack_redo@.map_values(|v: Vec<EditorElement>| v@)
                    =~= old(self).stack_redo@.map_values(|v: Vec<EditorElement>| v@)
                        .drop_last());
                assert(self.stack_undo@.map_values(|v: Vec<EditorElement>| v@)
                    =~= old(self).stack_undo@.map_values(|v: Vec<EditorElement>| v@)
                        .push(old(self).stack@));
                assert(final(self)@ =~= spec_redo(old(self)@));
            }
        }
    }
}

} // verus!
