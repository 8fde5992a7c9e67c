//! Values that enter the engine: what a tool reports between two frames.

use vstd::prelude::*;
use crate::event::{ElementState, Scalar, ToolButton};

verus! {

/// Handle of the surface that a tool hovers over. The engine keeps it only to
/// hand it back when the owning window has to be found.
#[derive(Clone, Copy, Debug, PartialEq, Eq, Structural)]
pub struct SurfaceId {
    pub raw: u64,
}

/// A protocol enumeration as it arrives: a value this engine knows, or the
/// bare number of one it does not.
#[derive(Debug, PartialEq, Eq, Structural)]
pub enum WireEnum<T> {
    Value(T),
    Unknown(u32),
}

impl<T: Copy> Clone for WireEnum<T> {
    fn clone(&self) -> (r: Self)
        ensures
            r == *self,
    {
        *self
    }
}

impl<T: Copy> Copy for WireEnum<T> {

}

/// The kinds of tool that the protocol tells apart.
#[derive(Clone, Copy, Debug, PartialEq, Eq, Structural)]
pub enum WireToolType {
    Pen,
    Eraser,
    Brush,
    Pencil,
    Airbrush,
    Finger,
    Mouse,
    Lens,
}

/// State of a button as the protocol reports it.
#[derive(Clone, Copy, Debug, PartialEq, Eq, Structural)]
pub enum ButtonState {
    Released,
    Pressed,
}

/// One report of a tool about itself.
#[derive(Clone, Copy, Debug, PartialEq, Eq, Structural)]
pub enum ToolUpdate {
    /// The tool says what kind of tool it is.
    Type { tool_type: WireEnum<WireToolType> },
    /// The tool came into range over `surface`.
    ProximityIn { surface: SurfaceId },
    /// The tool went out of range.
    ProximityOut,
    Pressure { pressure: u32 },
    Rotation { degrees: Scalar },
    Tilt { tilt_x: Scalar, tilt_y: Scalar },
    Motion { x: Scalar, y: Scalar },
    /// The tip touched the tablet.
    Down,
    /// The tip left the tablet.
    Up,
    Button { button: u32, state: WireEnum<ButtonState> },
    /// Any report that the engine has no use for.
    Unhandled,
}

impl ToolUpdate {
    /// Whether the report is a reading of a continuous axis: position,
    /// pressure, tilt or rotation.
    pub open spec fn is_continuous(self) -> bool {
        self is Pressure || self is Rotation || self is Tilt || self is Motion
    }
}

/// One notification about a tool: a report, the end of a frame, or the end
/// of the tool.
#[derive(Clone, Copy, Debug, PartialEq, Eq, Structural)]
pub enum ToolEvent {
    Update(ToolUpdate),
    /// The reports since the last frame belong together and are to be
    /// delivered now.
    Frame,
    /// The tool is gone for good.
    Removed,
}

/// Hardware code of the first barrel button of a stylus.
pub const BTN_STYLUS: u32 = 0x14b;

/// Hardware code of the second barrel button.
pub const BTN_STYLUS2: u32 = 0x14c;

/// Hardware code of the third barrel button.
pub const BTN_STYLUS3: u32 = 0x149;

/// The button that a hardware code stands for.
pub open spec fn button_of(code: u32) -> ToolButton {
    if code == BTN_STYLUS {
        ToolButton::Button1
    } else if code == BTN_STYLUS2 {
        ToolButton::Button2
    } else if code == BTN_STYLUS3 {
        ToolButton::Button3
    } else {
        ToolButton::Other(code)
    }
}

/// The pressed or released state that a reported button state stands for:
/// everything but `Pressed` counts as released.
pub open spec fn element_state_of(state: ButtonState) -> ElementState {
    match state {
        ButtonState::Pressed => ElementState::Pressed,
        ButtonState::Released => ElementState::Released,
    }
}

impl ToolButton {
    /// Maps a hardware button code to the button it stands for. The three
    /// barrel buttons of a stylus have names; every other code is kept as
    /// it is.
    pub fn from_code(code: u32) -> (button: ToolButton)
        ensures
            button == button_of(code),
    {
        if code == BTN_STYLUS {
            ToolButton::Button1
        } else if code == BTN_STYLUS2 {
            ToolButton::Button2
        } else if code == BTN_STYLUS3 {
            ToolButton::Button3
        } else {
            ToolButton::Other(code)
        }
    }

    /// The hardware code that `from_code` made this button from, if it made
    /// it: the tip has no code, and `from_code` never wraps the code of a
    /// barrel button in `Other`.
    pub open spec fn code(self) -> Option<u32> {
        match self {
            ToolButton::Contact => None,
            ToolButton::Button1 => Some(BTN_STYLUS),
            ToolButton::Button2 => Some(BTN_STYLUS2),
            ToolButton::Button3 => Some(BTN_STYLUS3),
            ToolButton::Other(code) => Some(code),
        }
    }
}

impl ElementState {
    pub fn from_button_state(state: ButtonState) -> (r: ElementState)
        ensures
            r == element_state_of(state),
    {
        match state {
            ButtonState::Pressed => ElementState::Pressed,
            ButtonState::Released => ElementState::Released,
        }
    }
}

} // verus!
