//! The record of one tool: what it reported since the last frame, and how a
//! frame turns that into pointer events.

use vstd::prelude::*;
use crate::error::TabletError;
use crate::event::{
    DeviceId, ElementState, Force, LogicalPosition, PhysicalPosition, Scalar, ToolButton,
    ToolState, ToolTilt, ToolType, WindowEvent,
};
use crate::update::{
    button_of, element_state_of, SurfaceId, ToolUpdate, WireEnum, WireToolType,
};

verus! {

/// What a tool record holds, as a mathematical value.
#[verifier::ext_equal]
pub struct ToolDataView {
    pub device_id: DeviceId,
    /// The surface of the last proximity-in.
    pub surface: Option<SurfaceId>,
    pub rotation: Option<Scalar>,
    pub tilt: Option<(Scalar, Scalar)>,
    pub position: Option<(Scalar, Scalar)>,
    pub pressure: Option<u32>,
    pub typ: Option<WireToolType>,
    /// A position, pressure, tilt or rotation arrived since the last frame
    /// that reported.
    pub moved: bool,
    /// The tool came into range since the last frame that reported.
    pub entered: bool,
    /// The tool went out of range since the last frame that reported.
    pub left: bool,
    /// Button transitions since the last frame that reported, oldest first.
    pub button_events: Seq<(ToolButton, ElementState)>,
}

impl ToolDataView {
    /// The record of a tool that has reported nothing yet.
    pub open spec fn fresh(device_id: DeviceId) -> Self {
        ToolDataView {
            device_id,
            surface: None,
            rotation: None,
            tilt: None,
            position: None,
            pressure: None,
            typ: None,
            moved: false,
            entered: false,
            left: false,
            button_events: Seq::empty(),
        }
    }

    /// The record after one report. Each report assigns the fields it is
    /// about and raises the flag that goes with them; nothing else changes.
    pub open spec fn ingest(self, update: ToolUpdate) -> Self {
        match update {
            ToolUpdate::Type { tool_type: WireEnum::Value(typ) } => ToolDataView {
                typ: Some(typ),
                ..self
            },
            ToolUpdate::Type { tool_type: WireEnum::Unknown(_) } => self,
            ToolUpdate::ProximityIn { surface } => ToolDataView {
                surface: Some(surface),
                entered: true,
                ..self
            },
            ToolUpdate::ProximityOut => ToolDataView { left: true, ..self },
            ToolUpdate::Pressure { pressure } => ToolDataView {
                pressure: Some(pressure),
                moved: true,
                ..self
            },
            ToolUpdate::Rotation { degrees } => ToolDataView {
                rotation: Some(degrees),
                moved: true,
                ..self
            },
            ToolUpdate::Tilt { tilt_x, tilt_y } => ToolDataView {
                tilt: Some((tilt_x, tilt_y)),
                moved: true,
                ..self
            },
            ToolUpdate::Motion { x, y } => ToolDataView {
                position: Some((x, y)),
                moved: true,
                ..self
            },
            ToolUpdate::Down => ToolDataView {
                button_events: self.button_events.push(
                    (ToolButton::Contact, ElementState::Pressed),
                ),
                ..self
            },
            ToolUpdate::Up => ToolDataView {
                button_events: self.button_events.push(
                    (ToolButton::Contact, ElementState::Released),
                ),
                ..self
            },
            ToolUpdate::Button { button, state: WireEnum::Value(state) } => ToolDataView {
                button_events: self.button_events.push(
                    (button_of(button), element_state_of(state)),
                ),
                ..self
            },
            ToolUpdate::Button { button, state: WireEnum::Unknown(_) } => self,
            ToolUpdate::Unhandled => self,
        }
    }

    /// The kind of tool that events report: an eraser where the tool said so,
    /// a pen in every other case.
    pub open spec fn tool_type(self) -> ToolType {
        match self.typ {
            Some(WireToolType::Eraser) => ToolType::Eraser,
            _ => ToolType::Pen,
        }
    }

    /// The force that a move reports: the last pressure, or full force where
    /// the tool never reported one.
    pub open spec fn force(self) -> Force {
        match self.pressure {
            Some(pressure) => Force { reading: pressure },
            None => Force { reading: crate::event::FULL_PRESSURE },
        }
    }

    /// What a move reports about the tool.
    pub open spec fn tool_state(self) -> ToolState {
        ToolState {
            force: self.force(),
            twist: self.rotation,
            tilt: match self.tilt {
                Some((x, y)) => Some(ToolTilt { x, y }),
                None => None,
            },
            typ: self.tool_type(),
        }
    }

    /// Whether a frame finds the window of the tool's surface. `scale_factor`
    /// is that window's scale factor, `None` where the surface has no window.
    pub open spec fn resolved(self, scale_factor: Option<Scalar>) -> bool {
        self.surface is Some && scale_factor is Some
    }

    /// Whether a frame reports at all: it found the window, and the tool has
    /// a position.
    pub open spec fn reports(self, scale_factor: Option<Scalar>) -> bool {
        self.resolved(scale_factor) && self.position is Some
    }

    /// The position that the events of a frame carry.
    pub open spec fn physical(self, scale_factor: Option<Scalar>) -> PhysicalPosition
        recommends
            self.reports(scale_factor),
    {
        let (x, y) = self.position.unwrap();
        PhysicalPosition { logical: LogicalPosition { x, y }, scale_factor: scale_factor.unwrap() }
    }

    pub open spec fn entered_event(self, scale_factor: Option<Scalar>) -> WindowEvent {
        WindowEvent::PointerEntered {
            device_id: self.device_id,
            position: self.physical(scale_factor),
            kind: self.tool_type(),
        }
    }

    pub open spec fn moved_event(self, scale_factor: Option<Scalar>) -> WindowEvent {
        WindowEvent::PointerMoved {
            device_id: self.device_id,
            position: self.physical(scale_factor),
            source: self.tool_state(),
        }
    }

    pub open spec fn left_event(self, scale_factor: Option<Scalar>) -> WindowEvent {
        WindowEvent::PointerLeft {
            device_id: self.device_id,
            position: self.physical(scale_factor),
            kind: self.tool_type(),
        }
    }

    /// The events of a frame: for each flag that is up one event, entering
    /// first, then moving, then leaving. A frame that does not report has
    /// none.
    pub open spec fn frame_events(self, scale_factor: Option<Scalar>) -> Seq<WindowEvent> {
        if self.reports(scale_factor) {
            (if self.entered {
                seq![self.entered_event(scale_factor)]
            } else {
                Seq::empty()
            }) + (if self.moved {
                seq![self.moved_event(scale_factor)]
            } else {
                Seq::empty()
            }) + (if self.left {
                seq![self.left_event(scale_factor)]
            } else {
                Seq::empty()
            })
        } else {
            Seq::empty()
        }
    }

    /// The record after a frame. A frame that reports takes the three flags
    /// down and empties the button queue; one that does not changes nothing.
    pub open spec fn after_frame(self, scale_factor: Option<Scalar>) -> Self {
        if self.reports(scale_factor) {
            ToolDataView {
                moved: false,
                entered: false,
                left: false,
                button_events: Seq::empty(),
                ..self
            }
        } else {
            self
        }
    }
}

/// One thing that happens to a record: a report comes in, or a frame ends
/// with the scale factor that its window lookup gave.
pub enum Step {
    Report(ToolUpdate),
    Frame(Option<Scalar>),
}

impl ToolDataView {
    /// The record after one step.
    pub open spec fn step(self, step: Step) -> Self {
        match step {
            Step::Report(update) => self.ingest(update),
            Step::Frame(scale_factor) => self.after_frame(scale_factor),
        }
    }

    /// The record after a run of steps, oldest first.
    pub open spec fn run(self, steps: Seq<Step>) -> Self
        decreases steps.len(),
    {
        if steps.len() == 0 {
            self
        } else {
            self.run(steps.drop_last()).step(steps.last())
        }
    }
}

/// The pending state of one tool between two frames.
#[derive(Debug)]
pub struct ToolData {
    device_id: i64,
    surface: Option<SurfaceId>,
    rotation: Option<Scalar>,
    tilt: Option<(Scalar, Scalar)>,
    position: Option<(Scalar, Scalar)>,
    pressure: Option<u32>,
    typ: Option<WireToolType>,
    moved: bool,
    entered: bool,
    left: bool,
    button_events: Vec<(ToolButton, ElementState)>,
}

impl View for ToolData {
    type V = ToolDataView;

    closed spec fn view(&self) -> ToolDataView {
        ToolDataView {
            device_id: DeviceId { raw: self.device_id },
            surface: self.surface,
            rotation: self.rotation,
            tilt: self.tilt,
            position: self.position,
            pressure: self.pressure,
            typ: self.typ,
            moved: self.moved,
            entered: self.entered,
            left: self.left,
            button_events: self.button_events@,
        }
    }
}

impl Default for ToolData {
    fn default() -> (data: Self)
        ensures
            data@ == ToolDataView::fresh(DeviceId { raw: 0 }),
    {
        ToolData::new(DeviceId::from_raw(0))
    }
}

impl ToolData {
    /// The record of a tool that was just announced.
    pub fn new(device_id: DeviceId) -> (data: Self)
        ensures
            data@ == ToolDataView::fresh(device_id),
    {
        ToolData {
            device_id: device_id.raw,
            surface: None,
            rotation: None,
            tilt: None,
            position: None,
            pressure: None,
            typ: None,
            moved: false,
            entered: false,
            left: false,
            button_events: Vec::new(),
        }
    }

    pub fn device_id(&self) -> (id: DeviceId)
        ensures
            id == self@.device_id,
    {
        DeviceId::from_raw(self.device_id)
    }

    /// The surface that the tool last came into range over.
    pub fn surface(&self) -> (surface: Option<SurfaceId>)
        ensures
            surface == self@.surface,
    {
        self.surface
    }

    /// The last position, in the logical coordinates of the surface.
    pub fn position(&self) -> (position: Option<(Scalar, Scalar)>)
        ensures
            position == self@.position,
    {
        self.position
    }

    pub fn pressure(&self) -> (pressure: Option<u32>)
        ensures
            pressure == self@.pressure,
    {
        self.pressure
    }

    pub fn rotation(&self) -> (rotation: Option<Scalar>)
        ensures
            rotation == self@.rotation,
    {
        self.rotation
    }

    pub fn tilt(&self) -> (tilt: Option<(Scalar, Scalar)>)
        ensures
            tilt == self@.tilt,
    {
        self.tilt
    }

    /// The kind of tool that the next events report.
    pub fn tool_type(&self) -> (typ: ToolType)
        ensures
            typ == self@.tool_type(),
    {
        match self.typ {
            Some(WireToolType::Eraser) => ToolType::Eraser,
            _ => ToolType::Pen,
        }
    }

    pub fn entered(&self) -> (entered: bool)
        ensures
            entered == self@.entered,
    {
        self.entered
    }

    pub fn moved(&self) -> (moved: bool)
        ensures
            moved == self@.moved,
    {
        self.moved
    }

    pub fn left(&self) -> (left: bool)
        ensures
            left == self@.left,
    {
        self.left
    }

    /// The button transitions since the last frame that reported, oldest
    /// first. A frame drops them without turning them into events; read them
    /// here before the frame ends.
    pub fn button_events(&self) -> (events: &Vec<(ToolButton, ElementState)>)
        ensures
            events@ == self@.button_events,
    {
        &self.button_events
    }

    /// Takes in one report of the tool. No event comes of it before the
    /// frame ends.
    pub fn ingest(&mut self, update: ToolUpdate)
        ensures
            final(self)@ == old(self)@.ingest(update),
    {
        match update {
            ToolUpdate::Type { tool_type: WireEnum::Value(typ) } => {
                self.typ = Some(typ);
            },
            ToolUpdate::ProximityIn { surface } => {
                self.surface = Some(surface);
                self.entered = true;
            },
            ToolUpdate::ProximityOut => {
                self.left = true;
            },
            ToolUpdate::Pressure { pressure } => {
                self.pressure = Some(pressure);
                self.moved = true;
            },
            ToolUpdate::Rotation { degrees } => {
                self.rotation = Some(degrees);
                self.moved = true;
            },
            ToolUpdate::Down => {
                self.button_events.push((ToolButton::Contact, ElementState::Pressed));
            },
            ToolUpdate::Up => {
                self.button_events.push((ToolButton::Contact, ElementState::Released));
            },
            ToolUpdate::Tilt { tilt_x, tilt_y } => {
                self.tilt = Some((tilt_x, tilt_y));
                self.moved = true;
            },
            ToolUpdate::Motion { x, y } => {
                self.position = Some((x, y));
                self.moved = true;
            },
            ToolUpdate::Button { button, state: WireEnum::Value(state) } => {
                let button = ToolButton::from_code(button);
                let state = ElementState::from_button_state(state);
                self.button_events.push((button, state));
            },
            _ => (),
        }
    }

    /// Ends a frame: reports what the tool did since the last frame as at
    /// most three events, in the order entered, moved, left.
    ///
    /// `scale_factor` is the scale factor of the window that owns the tool's
    /// surface, or `None` if no live window does. Without a window the frame
    /// is refused and the record stays as it is. With a window but without a
    /// position there is nothing to report, and the record stays as it is
    /// too.
    pub fn flush(&mut self, scale_factor: Option<Scalar>) -> (r: Result<
        Vec<WindowEvent>,
        TabletError,
    >)
        ensures
            match r {
                Ok(events) => {
                    &&& old(self)@.resolved(scale_factor)
                    &&& events@ == old(self)@.frame_events(scale_factor)
                    &&& final(self)@ == old(self)@.after_frame(scale_factor)
                },
                Err(e) => {
                    &&& e == TabletError::UnresolvedSurface
                    &&& !old(self)@.resolved(scale_factor)
                    &&& final(self)@ == old(self)@
                },
            },
    {
        let scale_factor = match (self.surface, scale_factor) {
            (Some(_), Some(scale_factor)) => scale_factor,
            _ => {
                return Err(TabletError::UnresolvedSurface);
            },
        };
        let mut events: Vec<WindowEvent> = Vec::new();
        let position = match self.position {
            Some((x, y)) => PhysicalPosition { logical: LogicalPosition { x, y }, scale_factor },
            None => {
                return Ok(events);
            },
        };
        let device_id = DeviceId::from_raw(self.device_id);
        let typ = self.tool_type();
        if self.entered {
            self.entered = false;
            events.push(WindowEvent::PointerEntered { device_id, position, kind: typ });
        }
        if self.moved {
            self.moved = false;
            let source = ToolState {
                force: match self.pressure {
                    Some(pressure) => Force::normalized(pressure),
                    None => Force::full(),
                },
                twist: self.rotation,
                tilt: match self.tilt {
                    Some((x, y)) => Some(ToolTilt { x, y }),
                    None => None,
                },
                typ,
            };
            events.push(WindowEvent::PointerMoved { device_id, position, source });
        }
        if self.left {
            self.left = false;
            events.push(WindowEvent::PointerLeft { device_id, position, kind: typ });
        }
        self.button_events.clear();
        Ok(events)
    }
}

} // verus!
