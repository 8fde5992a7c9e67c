use tablet_tool::error::TabletError;
use tablet_tool::event::{
    DeviceId, ElementState, Force, LogicalPosition, PhysicalPosition, Scalar, ToolButton,
    ToolState, ToolTilt, ToolType, WindowEvent, FULL_PRESSURE,
};
use tablet_tool::registry::ToolRegistry;
use tablet_tool::tool::ToolData;
use tablet_tool::update::{
    ButtonState, SurfaceId, ToolEvent, ToolUpdate, WireEnum, WireToolType,
};

const TOOL: u64 = 41;

fn scalar(value: f64) -> Scalar {
    Scalar::from_bits(value.to_bits())
}

fn value(reading: Scalar) -> f64 {
    f64::from_bits(reading.to_bits())
}

fn at(x: f64, y: f64, scale_factor: f64) -> PhysicalPosition {
    PhysicalPosition {
        logical: LogicalPosition { x: scalar(x), y: scalar(y) },
        scale_factor: scalar(scale_factor),
    }
}

fn pixels(position: PhysicalPosition) -> (f64, f64) {
    let scale_factor = value(position.scale_factor);
    (value(position.logical.x) * scale_factor, value(position.logical.y) * scale_factor)
}

fn fraction(force: Force) -> f64 {
    force.reading as f64 / FULL_PRESSURE as f64
}

fn report(registry: &mut ToolRegistry, update: ToolUpdate) {
    let events = registry.handle(TOOL, ToolEvent::Update(update), None).unwrap();
    assert!(events.is_empty());
}

fn frame(registry: &mut ToolRegistry, scale_factor: Option<f64>) -> Vec<WindowEvent> {
    registry.handle(TOOL, ToolEvent::Frame, scale_factor.map(scalar)).unwrap()
}

fn announced() -> ToolRegistry {
    let mut registry = ToolRegistry::new();
    assert_eq!(registry.register(TOOL), DeviceId::from_raw(0));
    registry
}

fn hovering(x: f64, y: f64) -> ToolRegistry {
    let mut registry = announced();
    report(&mut registry, ToolUpdate::ProximityIn { surface: SurfaceId { raw: 9 } });
    report(&mut registry, ToolUpdate::Motion { x: scalar(x), y: scalar(y) });
    registry
}

#[test]
fn enter_motion_pressure_then_frame() {
    let mut registry = hovering(10.0, 20.0);
    report(&mut registry, ToolUpdate::Pressure { pressure: 32767 });
    let events = frame(&mut registry, Some(1.0));
    assert_eq!(events.len(), 2);
    assert_eq!(
        events[0],
        WindowEvent::PointerEntered {
            device_id: DeviceId::from_raw(0),
            position: at(10.0, 20.0, 1.0),
            kind: ToolType::Pen,
        }
    );
    match events[1] {
        WindowEvent::PointerMoved { device_id, position, source } => {
            assert_eq!(device_id.into_raw(), 0);
            assert_eq!(pixels(position), (10.0, 20.0));
            assert_eq!(source.force, Force::normalized(32767));
            assert!((fraction(source.force) - 0.4999).abs() < 0.0001);
            assert!(fraction(source.force) < 0.5);
            assert_eq!(source.twist, None);
            assert_eq!(source.tilt, None);
            assert_eq!(source.typ, ToolType::Pen);
        },
        other => panic!("expected a move, got {:?}", other),
    }
}

#[test]
fn proximity_out_then_frame_gives_one_leave() {
    let mut registry = hovering(10.0, 20.0);
    report(&mut registry, ToolUpdate::Pressure { pressure: 32767 });
    assert_eq!(frame(&mut registry, Some(1.0)).len(), 2);
    report(&mut registry, ToolUpdate::ProximityOut);
    let events = frame(&mut registry, Some(1.0));
    assert_eq!(
        events,
        vec![WindowEvent::PointerLeft {
            device_id: DeviceId::from_raw(0),
            position: at(10.0, 20.0, 1.0),
            kind: ToolType::Pen,
        }]
    );
    assert_eq!(pixels(at(10.0, 20.0, 1.0)), (10.0, 20.0));
}

#[test]
fn frame_reports_enter_move_leave_in_that_order() {
    let mut registry = announced();
    report(&mut registry, ToolUpdate::ProximityOut);
    report(&mut registry, ToolUpdate::Motion { x: scalar(1.5), y: scalar(-2.0) });
    report(&mut registry, ToolUpdate::ProximityIn { surface: SurfaceId { raw: 9 } });
    let events = frame(&mut registry, Some(2.0));
    assert_eq!(events.len(), 3);
    assert!(matches!(events[0], WindowEvent::PointerEntered { .. }));
    assert!(matches!(events[1], WindowEvent::PointerMoved { .. }));
    assert!(matches!(events[2], WindowEvent::PointerLeft { .. }));
    for event in events {
        let position = match event {
            WindowEvent::PointerEntered { position, .. } => position,
            WindowEvent::PointerMoved { position, .. } => position,
            WindowEvent::PointerLeft { position, .. } => position,
        };
        assert_eq!(position, at(1.5, -2.0, 2.0));
        assert_eq!(pixels(position), (3.0, -4.0));
    }
}

#[test]
fn frame_without_position_has_no_events() {
    let mut registry = announced();
    report(&mut registry, ToolUpdate::ProximityIn { surface: SurfaceId { raw: 9 } });
    report(&mut registry, ToolUpdate::Pressure { pressure: 100 });
    report(&mut registry, ToolUpdate::Down);
    assert!(frame(&mut registry, Some(1.0)).is_empty());
    let data = registry.get(TOOL).unwrap();
    assert!(data.entered());
    assert!(data.moved());
    assert!(!data.left());
    assert_eq!(data.button_events().len(), 1);
}

#[test]
fn frame_without_flags_has_no_events() {
    let mut registry = hovering(10.0, 20.0);
    assert_eq!(frame(&mut registry, Some(1.0)).len(), 2);
    report(&mut registry, ToolUpdate::Type { tool_type: WireEnum::Value(WireToolType::Eraser) });
    report(&mut registry, ToolUpdate::Up);
    assert_eq!(registry.get(TOOL).unwrap().position(), Some((scalar(10.0), scalar(20.0))));
    assert!(frame(&mut registry, Some(1.0)).is_empty());
    assert!(frame(&mut registry, Some(1.0)).is_empty());
}

#[test]
fn pressure_defaults_to_full_force() {
    let mut registry = hovering(3.0, 4.0);
    let events = frame(&mut registry, Some(1.0));
    match events[1] {
        WindowEvent::PointerMoved { source, .. } => {
            assert_eq!(source.force, Force::full());
            assert_eq!(source.force.reading, 65535);
            assert_eq!(fraction(source.force), 1.0);
        },
        other => panic!("expected a move, got {:?}", other),
    }
}

#[test]
fn reported_pressure_replaces_the_default() {
    let mut registry = hovering(3.0, 4.0);
    report(&mut registry, ToolUpdate::Pressure { pressure: 0 });
    let events = frame(&mut registry, Some(1.0));
    match events[1] {
        WindowEvent::PointerMoved { source, .. } => assert_eq!(fraction(source.force), 0.0),
        other => panic!("expected a move, got {:?}", other),
    }
    report(&mut registry, ToolUpdate::Rotation { degrees: scalar(90.0) });
    let events = frame(&mut registry, Some(1.0));
    assert_eq!(events.len(), 1);
    match events[0] {
        WindowEvent::PointerMoved { source, .. } => {
            assert_eq!(source.force, Force::normalized(0));
            assert_eq!(source.twist.map(value), Some(90.0));
        },
        other => panic!("expected a move, got {:?}", other),
    }
}

#[test]
fn tilt_and_rotation_reach_the_move() {
    let mut registry = hovering(0.0, 0.0);
    report(&mut registry, ToolUpdate::Tilt { tilt_x: scalar(12.5), tilt_y: scalar(-30.0) });
    report(&mut registry, ToolUpdate::Rotation { degrees: scalar(45.0) });
    report(&mut registry, ToolUpdate::Pressure { pressure: 65535 });
    let events = frame(&mut registry, Some(1.25));
    assert_eq!(
        events[1],
        WindowEvent::PointerMoved {
            device_id: DeviceId::from_raw(0),
            position: at(0.0, 0.0, 1.25),
            source: ToolState {
                force: Force::full(),
                twist: Some(scalar(45.0)),
                tilt: Some(ToolTilt { x: scalar(12.5), y: scalar(-30.0) }),
                typ: ToolType::Pen,
            },
        }
    );
}

#[test]
fn last_report_of_a_field_wins() {
    let mut registry = hovering(1.0, 1.0);
    report(&mut registry, ToolUpdate::Motion { x: scalar(2.0), y: scalar(3.0) });
    report(&mut registry, ToolUpdate::Motion { x: scalar(2.0), y: scalar(3.0) });
    report(&mut registry, ToolUpdate::Pressure { pressure: 7 });
    report(&mut registry, ToolUpdate::Pressure { pressure: 8 });
    report(&mut registry, ToolUpdate::ProximityIn { surface: SurfaceId { raw: 10 } });
    assert_eq!(registry.get(TOOL).unwrap().surface(), Some(SurfaceId { raw: 10 }));
    assert_eq!(registry.get(TOOL).unwrap().pressure(), Some(8));
    let events = frame(&mut registry, Some(1.0));
    assert_eq!(events.len(), 2);
    assert_eq!(pixels(match events[1] {
        WindowEvent::PointerMoved { position, .. } => position,
        other => panic!("expected a move, got {:?}", other),
    }), (2.0, 3.0));
}

#[test]
fn eraser_is_an_eraser_and_every_other_tool_a_pen() {
    let kinds = [
        (WireToolType::Pen, ToolType::Pen),
        (WireToolType::Eraser, ToolType::Eraser),
        (WireToolType::Brush, ToolType::Pen),
        (WireToolType::Pencil, ToolType::Pen),
        (WireToolType::Airbrush, ToolType::Pen),
        (WireToolType::Finger, ToolType::Pen),
        (WireToolType::Mouse, ToolType::Pen),
        (WireToolType::Lens, ToolType::Pen),
    ];
    for (reported, expected) in kinds {
        let mut registry = hovering(1.0, 1.0);
        report(&mut registry, ToolUpdate::Type { tool_type: WireEnum::Value(reported) });
        report(&mut registry, ToolUpdate::ProximityOut);
        assert_eq!(registry.get(TOOL).unwrap().tool_type(), expected);
        let events = frame(&mut registry, Some(1.0));
        assert_eq!(events.len(), 3);
        for event in events {
            let kind = match event {
                WindowEvent::PointerEntered { kind, .. } => kind,
                WindowEvent::PointerMoved { source, .. } => source.typ,
                WindowEvent::PointerLeft { kind, .. } => kind,
            };
            assert_eq!(kind, expected);
        }
    }
}

#[test]
fn unknown_tool_type_is_ignored() {
    let mut registry = hovering(1.0, 1.0);
    report(&mut registry, ToolUpdate::Type { tool_type: WireEnum::Value(WireToolType::Eraser) });
    report(&mut registry, ToolUpdate::Type { tool_type: WireEnum::Unknown(0x999) });
    assert_eq!(registry.get(TOOL).unwrap().tool_type(), ToolType::Eraser);
}

#[test]
fn unhandled_report_changes_nothing() {
    let mut registry = hovering(1.0, 1.0);
    assert_eq!(frame(&mut registry, Some(1.0)).len(), 2);
    report(&mut registry, ToolUpdate::Unhandled);
    let data = registry.get(TOOL).unwrap();
    assert!(!data.entered() && !data.moved() && !data.left());
    assert!(data.button_events().is_empty());
    assert!(frame(&mut registry, Some(1.0)).is_empty());
}

#[test]
fn frame_without_window_keeps_what_is_pending() {
    let mut registry = hovering(5.0, 6.0);
    report(&mut registry, ToolUpdate::Down);
    assert!(frame(&mut registry, None).is_empty());
    let data = registry.get(TOOL).unwrap();
    assert!(data.entered());
    assert!(data.moved());
    assert_eq!(data.button_events().len(), 1);
    let events = frame(&mut registry, Some(1.0));
    assert_eq!(events.len(), 2);
    assert!(registry.get(TOOL).unwrap().button_events().is_empty());
}

#[test]
fn flush_without_window_is_an_unresolved_surface() {
    let mut data = ToolData::new(DeviceId::from_raw(3));
    data.ingest(ToolUpdate::ProximityIn { surface: SurfaceId { raw: 9 } });
    data.ingest(ToolUpdate::Motion { x: scalar(1.0), y: scalar(2.0) });
    assert_eq!(data.flush(None), Err(TabletError::UnresolvedSurface));
    assert!(data.entered());
    assert!(data.moved());
    let events = data.flush(Some(scalar(1.0))).unwrap();
    assert_eq!(events.len(), 2);
    assert_eq!(
        events[0],
        WindowEvent::PointerEntered {
            device_id: DeviceId::from_raw(3),
            position: at(1.0, 2.0, 1.0),
            kind: ToolType::Pen,
        }
    );
}

#[test]
fn flush_without_surface_is_an_unresolved_surface() {
    let mut data = ToolData::new(DeviceId::from_raw(0));
    data.ingest(ToolUpdate::Motion { x: scalar(1.0), y: scalar(2.0) });
    assert_eq!(data.surface(), None);
    assert_eq!(data.flush(Some(scalar(1.0))), Err(TabletError::UnresolvedSurface));
    assert!(data.moved());
    assert_eq!(data.position(), Some((scalar(1.0), scalar(2.0))));
}

#[test]
fn flush_without_position_reports_nothing() {
    let mut data = ToolData::new(DeviceId::from_raw(0));
    data.ingest(ToolUpdate::ProximityIn { surface: SurfaceId { raw: 9 } });
    data.ingest(ToolUpdate::Tilt { tilt_x: scalar(1.0), tilt_y: scalar(2.0) });
    assert_eq!(data.flush(Some(scalar(1.0))), Ok(vec![]));
    assert!(data.entered());
    assert!(data.moved());
    assert_eq!(data.tilt(), Some((scalar(1.0), scalar(2.0))));
    assert_eq!(data.rotation(), None);
}

#[test]
fn contact_and_buttons_queue_up_until_the_frame() {
    let mut registry = hovering(1.0, 1.0);
    report(&mut registry, ToolUpdate::Down);
    report(
        &mut registry,
        ToolUpdate::Button { button: 0x14b, state: WireEnum::Value(ButtonState::Pressed) },
    );
    report(
        &mut registry,
        ToolUpdate::Button { button: 0x14b, state: WireEnum::Value(ButtonState::Released) },
    );
    report(&mut registry, ToolUpdate::Up);
    assert_eq!(
        registry.get(TOOL).unwrap().button_events(),
        &vec![
            (ToolButton::Contact, ElementState::Pressed),
            (ToolButton::Button1, ElementState::Pressed),
            (ToolButton::Button1, ElementState::Released),
            (ToolButton::Contact, ElementState::Released),
        ]
    );
    assert_eq!(frame(&mut registry, Some(1.0)).len(), 2);
    assert!(registry.get(TOOL).unwrap().button_events().is_empty());
}

#[test]
fn new_record_is_empty() {
    let data = ToolData::new(DeviceId::from_raw(5));
    assert_eq!(data.device_id(), DeviceId::from_raw(5));
    assert_eq!(data.surface(), None);
    assert_eq!(data.position(), None);
    assert_eq!(data.pressure(), None);
    assert_eq!(data.rotation(), None);
    assert_eq!(data.tilt(), None);
    assert_eq!(data.tool_type(), ToolType::Pen);
    assert!(!data.entered() && !data.moved() && !data.left());
    assert!(data.button_events().is_empty());
    assert_eq!(ToolData::default().device_id(), DeviceId::from_raw(0));
}
