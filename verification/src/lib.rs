//! Core of an interactive 2D vector-shape editor.
//!
//! The library owns the scene model (lines, circles, ellipses, rectangles,
//! triangles, hexagons with a display colour each), the interpretation of
//! pointer gestures as concrete shapes, hit-testing for drag selection,
//! the snapping engine (grid, reference frames, canvas edges and element
//! anchors) and the undo/redo history of full scene snapshots.
//!
//! All geometry is kept in integer pixel coordinates, so every rule is
//! exact: callers that sample a pointer device convert to integers at the
//! boundary. Rendering and input sampling are left to the host program.

pub mod editor_buttons;
pub mod editor_element;
pub mod editor_elements;
pub mod editor_helps;
pub mod editor_state;
pub mod geometry;

pub use editor_buttons::EditorButtons;
pub use editor_element::EditorElement;
pub use editor_element::EditorValues;
pub use editor_element::Rgba;
pub use editor_elements::EditorElements;
pub use editor_helps::EditorHelps;
pub use editor_state::EditorState;
pub use editor_state::ExportData;
pub use geometry::Point;
