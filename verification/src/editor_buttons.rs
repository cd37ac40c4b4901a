//! The editor's command buttons and the state changes each one triggers.
//!
//! The host program decides which button (if any) the pointer pressed —
//! that is a question of toolbar layout and text metrics — and hands the
//! button here; `actions` then performs the state change it stands for.

use vstd::prelude::*;

use crate::editor_elements::EditorElements;
use crate::editor_state::{spec_redo, spec_undo, EditorState, StateModel};

verus! {

/// Every command the toolbar offers.
#[derive(Debug, Clone, Copy, PartialEq, Eq, Structural)]
pub enum EditorButtons {
    Undo,
    Redo,
    Help,
    Grid,
    Snap,
    Color,
    Line,
    Circle,
    Ellipse,
    Rectangle,
    Triangle,
    Hexagon,
}

/// The buttons that select a shape to draw.
pub open spec fn is_shape_button(b: EditorButtons) -> bool {
    ||| b is Ellipse
    ||| b is Line
    ||| b is Triangle
    ||| b is Rectangle
    ||| b is Circle
    ||| b is Hexagon
}

/// The state change a toolbar button triggers. Pressing a shape button
/// selects that shape, re-pressing the already active shape button
/// toggles between the draw and select tools; Undo/Redo step the
/// history; Help, Snap and Grid flip their settings (the grid cycling
/// off after its last level); Color is reserved and changes nothing.
pub open spec fn spec_button_action(m: StateModel, button: EditorButtons) -> StateModel {
    let m1 = if is_shape_button(button) {
        if m.button == Some(button) {
            StateModel { draw: !m.draw, ..m }
        } else {
            StateModel { draw: true, ..m }
        }
    } else {
        m
    };
    match button {
        EditorButtons::Undo => spec_undo(StateModel { button: Some(button), ..m1 }),
        EditorButtons::Redo => spec_redo(StateModel { button: Some(button), ..m1 }),
        EditorButtons::Help => StateModel { button: Some(button), help: !m1.help, ..m1 },
        EditorButtons::Grid => StateModel {
            button: Some(button),
            grid: if m1.grid > 2 {
                0
            } else {
                (m1.grid + 1) as u16
            },
            ..m1
        },
        EditorButtons::Snap => StateModel { button: Some(button), snap: !m1.snap, ..m1 },
        EditorButtons::Color => m1,
        EditorButtons::Line => StateModel {
            button: Some(button),
            element: EditorElements::Line,
            ..m1
        },
        EditorButtons::Circle => StateModel {
            button: Some(button),
            element: EditorElements::Circle,
            ..m1
        },
        EditorButtons::Ellipse => StateModel {
            button: Some(button),
            element: EditorElements::Ellipse,
            ..m1
        },
        EditorButtons::Rectangle => StateModel {
            button: Some(button),
            element: EditorElements::Rectangle,
            ..m1
        },
        EditorButtons::Triangle => StateModel {
            button: Some(button),
            element: EditorElements::Triangle,
            ..m1
        },
        EditorButtons::Hexagon => StateModel {
            button: Some(button),
            element: EditorElements::Hexagon,
            ..m1
        },
    }
}

impl EditorButtons {
    /// Is this one of the shape-selecting buttons?
    pub fn is_shape(&self) -> (r: bool)
        ensures
            r == is_shape_button(*self),
    {
        match self {
            EditorButtons::Ellipse => true,
            EditorButtons::Line => true,
            EditorButtons::Triangle => true,
            EditorButtons::Rectangle => true,
            EditorButtons::Circle => true,
            EditorButtons::Hexagon => true,
            _ => false,
        }
    }

    /// Apply the state change a pressed toolbar button stands for. The
    /// host decides which button the pointer hit (a toolbar-layout
    /// question) and hands it here.
    pub fn actions(state: &mut EditorState, button: EditorButtons)
        ensures
            final(state)@ == spec_button_action(old(state)@, button),
    {
        if button.is_shape() {
            let same = match state.button {
                Some(b) => b == button,
                None => false,
            };
            if same {
                state.draw = !state.draw;
            } else {
                state.draw = true;
            }
        }
        let ghost m1 = state@;
        match button {
            EditorButtons::Undo => {
                state.button = Some(EditorButtons::Undo);
                state.undo();
            },
            EditorButtons::Redo => {
                state.button = Some(EditorButtons::Redo);
                state.redo();
            },
            EditorButtons::Help => {
                state.button = Some(EditorButtons::Help);
                state.help = !state.help;
            },
            EditorButtons::Ellipse => {
                state.button = Some(EditorButtons::Ellipse);
                state.element = EditorElements::Ellipse;
            },
            EditorButtons::Rectangle => {
                state.button = Some(EditorButtons::Rectangle);
                state.element = EditorElements::Rectangle;
            },
            EditorButtons::Triangle => {
                state.button = Some(EditorButtons::Triangle);
                state.element = EditorElements::Triangle;
            },
            EditorButtons::Hexagon => {
                state.button = Some(EditorButtons::Hexagon);
                state.element = EditorElements::Hexagon;
            },
            EditorButtons::Line => {
                state.button = Some(EditorButtons::Line);
                state.element = EditorElements::Line;
            },
            EditorButtons::Circle => {
                state.button = Some(EditorButtons::Circle);
                state.element = EditorElements::Circle;
            },
            EditorButtons::Grid => {
                state.button = Some(EditorButtons::Grid);
                if state.grid > 2 {
                    state.grid = 0;
                } else {
                    state.grid = state.grid + 1;
                }
            },
            EditorButtons::Snap => {
                state.button = Some(EditorButtons::Snap);
                state.snap = !state.snap;
            },
            EditorButtons::Color => {},
        }
        proof {
            assert(state@ =~= spec_button_action(old(state)@, button));
        }
    }

    /// The caption drawn on the button.
    pub fn text(&self) -> (r: &'static str)
        ensures
            self is Undo ==> r@ == "UNDO"@,
            self is Redo ==> r@ == "REDO"@,
            self is Help ==> r@ == "HELP"@,
            self is Grid ==> r@ == "GRID"@,
            self is Snap ==> r@ == "SNAP"@,
            self is Color ==> r@ == "COLOR"@,
            self is Line ==> r@ == "LINE"@,
            self is Circle ==> r@ == "CIRCLE"@,
            self is Ellipse ==> r@ == "ELLIPSE"@,
            self is Rectangle ==> r@ == "RECTANGLE"@,
            self is Triangle ==> r@ == "TRIANGLE"@,
            self is Hexagon ==> r@ == "HEXAGON"@,
    {
        match self {
            EditorButtons::Undo => "UNDO",
            EditorButtons::Redo => "REDO",
            EditorButtons::Help => "HELP",
            EditorButtons::Grid => "GRID",
            EditorButtons::Snap => "SNAP",
            EditorButtons::Color => "COLOR",
            EditorButtons::Line => "LINE",
            EditorButtons::Circle => "CIRCLE",
            EditorButtons::Ellipse => "ELLIPSE",
            EditorButtons::Rectangle => "RECTANGLE",
            EditorButtons::Triangle => "TRIANGLE",
            EditorButtons::Hexagon => "HEXAGON",
        }
    }
}

} // verus!
