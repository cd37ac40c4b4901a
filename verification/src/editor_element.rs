//! Scene elements: the closed set of shape kinds with their parametric
//! data, a display colour each, and the derived bounding-box extents used
//! when a scene is exported.

use vstd::prelude::*;

use crate::geometry::{in_range, Point};

verus! {

/// A display colour with 8-bit channels.
#[derive(Clone, Copy, Debug, PartialEq, Eq, Structural)]
pub struct Rgba {
    pub r: u8,
    pub g: u8,
    pub b: u8,
    pub a: u8,
}

impl Rgba {
    pub fn new(r: u8, g: u8, b: u8, a: u8) -> (c: Rgba)
        ensures
            c == (Rgba { r, g, b, a }),
    {
        Rgba { r, g, b, a }
    }
}

/// The geometry of one scene element.
///
/// Sizes and positions are integer pixels. The `rotation` carried by
/// ellipses and rectangles is kept as data but every gesture of this
/// editor creates it as zero and no operation changes it, so hit tests
/// and bounding boxes treat the shape as unrotated.
#[derive(Clone, Copy, Debug, PartialEq, Eq, Structural)]
pub enum EditorValues {
    Line { point_a: Point, point_b: Point, thickness: i64 },
    Circle { center: Point, radius: i64 },
    Ellipse { center: Point, width: i64, height: i64, rotation: i64 },
    Rectangle { point: Point, width: i64, height: i64, rotation: i64 },
    Triangle { point_a: Point, point_b: Point, point_c: Point },
    Hexagon { center: Point, radius: i64, vertical: bool },
}

/// A geometry value together with its display colour: the unit a scene
/// stores.
#[derive(Clone, Copy, Debug, PartialEq, Eq, Structural)]
pub struct EditorElement {
    pub color: Rgba,
    pub value: EditorValues,
}

impl EditorElement {
    pub fn new(value: EditorValues, color: Rgba) -> (e: EditorElement)
        ensures
            e == (EditorElement { color, value }),
    {
        EditorElement { color, value }
    }
}

/// The per-variant parameter invariant: positive line thickness,
/// non-negative radii and extents; triangles may be degenerate.
pub open spec fn value_wf(v: EditorValues) -> bool {
    match v {
        EditorValues::Line { thickness, .. } => thickness > 0,
        EditorValues::Circle { radius, .. } => radius >= 0,
        EditorValues::Ellipse { width, height, .. } => width >= 0 && height >= 0,
        EditorValues::Rectangle { width, height, .. } => width >= 0 && height >= 0,
        EditorValues::Triangle { .. } => true,
        EditorValues::Hexagon { radius, .. } => radius >= 0,
    }
}

pub open spec fn elem_wf(e: EditorElement) -> bool {
    value_wf(e.value)
}

/// Every scalar carried by the value lies within `limit` of zero.
pub open spec fn value_in_range(v: EditorValues, limit: int) -> bool {
    match v {
        EditorValues::Line { point_a, point_b, thickness } => in_range(point_a, limit)
            && in_range(point_b, limit) && -limit <= thickness <= limit,
        EditorValues::Circle { center, radius } => in_range(center, limit) && -limit <= radius
            <= limit,
        EditorValues::Ellipse { center, width, height, rotation } => in_range(center, limit)
            && -limit <= width <= limit && -limit <= height <= limit && -limit <= rotation
            <= limit,
        EditorValues::Rectangle { point, width, height, rotation } => in_range(point, limit)
            && -limit <= width <= limit && -limit <= height <= limit && -limit <= rotation
            <= limit,
        EditorValues::Triangle { point_a, point_b, point_c } => in_range(point_a, limit)
            && in_range(point_b, limit) && in_range(point_c, limit),
        EditorValues::Hexagon { center, radius, .. } => in_range(center, limit) && -limit
            <= radius <= limit,
    }
}

pub open spec fn elem_in_range(e: EditorElement, limit: int) -> bool {
    value_in_range(e.value, limit)
}

/// Every element of the scene is within `limit`.
pub open spec fn scene_in_range(s: Seq<EditorElement>, limit: int) -> bool {
    forall|i: int| 0 <= i < s.len() ==> elem_in_range(#[trigger] s[i], limit)
}

/// Every element of the scene meets its parameter invariant.
pub open spec fn scene_wf(s: Seq<EditorElement>) -> bool {
    forall|i: int| 0 <= i < s.len() ==> elem_wf(#[trigger] s[i])
}

pub open spec fn min_int(a: int, b: int) -> int {
    if a <= b {
        a
    } else {
        b
    }
}

pub open spec fn max_int(a: int, b: int) -> int {
    if a >= b {
        a
    } else {
        b
    }
}

pub open spec fn abs_int(a: int) -> int {
    if a >= 0 {
        a
    } else {
        -a
    }
}

/// The smallest x coordinate of the element's axis-aligned extent:
/// endpoints for lines and triangles, `center - radius` for circles and
/// hexagons, half the extents around the center for ellipses, the stored
/// corner for rectangles (rotation treated as zero throughout).
pub open spec fn bbox_min_x(v: EditorValues) -> int {
    match v {
        EditorValues::Line { point_a, point_b, .. } => min_int(point_a.x as int, point_b.x as int),
        EditorValues::Circle { center, radius } => center.x - radius,
        EditorValues::Ellipse { center, width, .. } => center.x - width / 2,
        EditorValues::Rectangle { point, .. } => point.x as int,
        EditorValues::Triangle { point_a, point_b, point_c } => min_int(
            point_a.x as int,
            min_int(point_b.x as int, point_c.x as int),
        ),
        EditorValues::Hexagon { center, radius, .. } => center.x - radius,
    }
}

pub open spec fn bbox_min_y(v: EditorValues) -> int {
    match v {
        EditorValues::Line { point_a, point_b, .. } => min_int(point_a.y as int, point_b.y as int),
        EditorValues::Circle { center, radius } => center.y - radius,
        EditorValues::Ellipse { center, height, .. } => center.y - height / 2,
        EditorValues::Rectangle { point, .. } => point.y as int,
        EditorValues::Triangle { point_a, point_b, point_c } => min_int(
            point_a.y as int,
            min_int(point_b.y as int, point_c.y as int),
        ),
        EditorValues::Hexagon { center, radius, .. } => center.y - radius,
    }
}

pub open spec fn bbox_max_x(v: EditorValues) -> int {
    match v {
        EditorValues::Line { point_a, point_b, .. } => max_int(point_a.x as int, point_b.x as int),
        EditorValues::Circle { center, radius } => center.x + radius,
        EditorValues::Ellipse { center, width, .. } => center.x + width / 2,
        EditorValues::Rectangle { point, width, .. } => point.x + width,
        EditorValues::Triangle { point_a, point_b, point_c } => max_int(
            point_a.x as int,
            max_int(point_b.x as int, point_c.x as int),
        ),
        EditorValues::Hexagon { center, radius, .. } => center.x + radius,
    }
}

pub open spec fn bbox_max_y(v: EditorValues) -> int {
    match v {
        EditorValues::Line { point_a, point_b, .. } => max_int(point_a.y as int, point_b.y as int),
        EditorValues::Circle { center, radius } => center.y + radius,
        EditorValues::Ellipse { center, height, .. } => center.y + height / 2,
        EditorValues::Rectangle { point, height, .. } => point.y + height,
        EditorValues::Triangle { point_a, point_b, point_c } => max_int(
            point_a.y as int,
            max_int(point_b.y as int, point_c.y as int),
        ),
        EditorValues::Hexagon { center, radius, .. } => center.y + radius,
    }
}

/// The element with every position-bearing point shifted by `(dx, dy)`;
/// sizes, rotations and colours are untouched.
pub open spec fn translate_value(v: EditorValues, dx: int, dy: int) -> EditorValues {
    match v {
        EditorValues::Line { point_a, point_b, thickness } => (EditorValues::Line {
            point_a: (Point { x: (point_a.x + dx) as i64, y: (point_a.y + dy) as i64 }),
            point_b: (Point { x: (point_b.x + dx) as i64, y: (point_b.y + dy) as i64 }),
            thickness,
        }),
        EditorValues::Circle { center, radius } => (EditorValues::Circle {
            center: (Point { x: (center.x + dx) as i64, y: (center.y + dy) as i64 }),
            radius,
        }),
        EditorValues::Ellipse { center, width, height, rotation } => (EditorValues::Ellipse {
            center: (Point { x: (center.x + dx) as i64, y: (center.y + dy) as i64 }),
            width,
            height,
            rotation,
        }),
        EditorValues::Rectangle { point, width, height, rotation } => (EditorValues::Rectangle {
            point: (Point { x: (point.x + dx) as i64, y: (point.y + dy) as i64 }),
            width,
            height,
            rotation,
        }),
        EditorValues::Triangle { point_a, point_b, point_c } => (EditorValues::Triangle {
            point_a: (Point { x: (point_a.x + dx) as i64, y: (point_a.y + dy) as i64 }),
            point_b: (Point { x: (point_b.x + dx) as i64, y: (point_b.y + dy) as i64 }),
            point_c: (Point { x: (point_c.x + dx) as i64, y: (point_c.y + dy) as i64 }),
        }),
        EditorValues::Hexagon { center, radius, vertical } => (EditorValues::Hexagon {
            center: (Point { x: (center.x + dx) as i64, y: (center.y + dy) as i64 }),
            radius,
            vertical,
        }),
    }
}

pub open spec fn translate_element(e: EditorElement, dx: int, dy: int) -> EditorElement {
    EditorElement { color: e.color, value: translate_value(e.value, dx, dy) }
}

} // verus!
