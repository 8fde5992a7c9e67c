//! Values that leave the engine: pointer events and what they carry.

use vstd::prelude::*;

verus! {

/// A real-valued reading, kept as the 64 bits of its IEEE 754 double.
///
/// The engine stores and forwards readings without doing arithmetic on them,
/// so the encoding is all it needs.
#[derive(Clone, Copy, Debug, PartialEq, Eq, Structural)]
pub struct Scalar {
    pub bits: u64,
}

impl Scalar {
    pub fn from_bits(bits: u64) -> (s: Self)
        ensures
            s.bits == bits,
    {
        Scalar { bits }
    }

    pub fn to_bits(&self) -> (bits: u64)
        ensures
            bits == self.bits,
    {
        self.bits
    }
}

/// A point in the logical coordinates of a surface.
#[derive(Clone, Copy, Debug, PartialEq, Eq, Structural)]
pub struct LogicalPosition {
    pub x: Scalar,
    pub y: Scalar,
}

/// A point in the pixels of a window: a logical point together with the
/// scale factor of the window that takes it to pixels.
///
/// Both coordinates of the pixel position are the product of the logical
/// coordinate and `scale_factor`.
#[derive(Clone, Copy, Debug, PartialEq, Eq, Structural)]
pub struct PhysicalPosition {
    pub logical: LogicalPosition,
    pub scale_factor: Scalar,
}

/// Small integer that tells the tools of one seat apart.
#[derive(Clone, Copy, Debug, PartialEq, Eq, Structural)]
pub struct DeviceId {
    pub raw: i64,
}

impl DeviceId {
    pub fn from_raw(raw: i64) -> (id: Self)
        ensures
            id.raw == raw,
    {
        DeviceId { raw }
    }

    pub fn into_raw(self) -> (raw: i64)
        ensures
            raw == self.raw,
    {
        self.raw
    }
}

/// What kind of tool an event reports.
#[derive(Clone, Copy, Debug, PartialEq, Eq, Structural)]
pub enum ToolType {
    Pen,
    Eraser,
}

/// The reading at which a tool reports full force.
pub const FULL_PRESSURE: u32 = 65535;

/// Force on the tip as a fraction of full force: `reading / FULL_PRESSURE`.
#[derive(Clone, Copy, Debug, PartialEq, Eq, Structural)]
pub struct Force {
    pub reading: u32,
}

impl Force {
    /// True when the fraction is exactly one.
    pub open spec fn is_full(self) -> bool {
        self.reading == FULL_PRESSURE
    }

    pub fn normalized(reading: u32) -> (force: Self)
        ensures
            force.reading == reading,
    {
        Force { reading }
    }

    pub fn full() -> (force: Self)
        ensures
            force.is_full(),
            force.reading == FULL_PRESSURE,
    {
        Force { reading: FULL_PRESSURE }
    }
}

/// Tilt of a tool against both axes of the tablet, in degrees.
#[derive(Clone, Copy, Debug, PartialEq, Eq, Structural)]
pub struct ToolTilt {
    pub x: Scalar,
    pub y: Scalar,
}

/// What a move reports about the tool besides its position.
#[derive(Clone, Copy, Debug, PartialEq, Eq, Structural)]
pub struct ToolState {
    pub force: Force,
    pub twist: Option<Scalar>,
    pub tilt: Option<ToolTilt>,
    pub typ: ToolType,
}

/// A pointer event for the window under the tool.
#[derive(Clone, Copy, Debug, PartialEq, Eq, Structural)]
pub enum WindowEvent {
    PointerEntered { device_id: DeviceId, position: PhysicalPosition, kind: ToolType },
    PointerMoved { device_id: DeviceId, position: PhysicalPosition, source: ToolState },
    PointerLeft { device_id: DeviceId, position: PhysicalPosition, kind: ToolType },
}

impl WindowEvent {
    /// Place of the event's kind in the order in which one frame reports:
    /// entering comes before moving, and moving before leaving.
    pub open spec fn rank(self) -> int {
        match self {
            WindowEvent::PointerEntered { .. } => 0,
            WindowEvent::PointerMoved { .. } => 1,
            WindowEvent::PointerLeft { .. } => 2,
        }
    }

    pub open spec fn device_id(self) -> DeviceId {
        match self {
            WindowEvent::PointerEntered { device_id, .. } => device_id,
            WindowEvent::PointerMoved { device_id, .. } => device_id,
            WindowEvent::PointerLeft { device_id, .. } => device_id,
        }
    }

    pub open spec fn position(self) -> PhysicalPosition {
        match self {
            WindowEvent::PointerEntered { position, .. } => position,
            WindowEvent::PointerMoved { position, .. } => position,
            WindowEvent::PointerLeft { position, .. } => position,
        }
    }
}

/// Whether a button went down or came up.
#[derive(Clone, Copy, Debug, PartialEq, Eq, Structural)]
pub enum ElementState {
    Pressed,
    Released,
}

/// A button of a tool.
#[derive(Clone, Copy, Debug, PartialEq, Eq, Structural)]
pub enum ToolButton {
    /// The tip touching the tablet.
    Contact,
    Button1,
    Button2,
    Button3,
    /// Any other button, with its hardware code.
    Other(u32),
}

} // verus!
