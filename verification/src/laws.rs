//! What holds of the engine whatever it is fed.

use vstd::prelude::*;
use crate::event::{DeviceId, ElementState, Scalar, ToolButton, WindowEvent};
use crate::registry::{Notification, RegistryView};
use crate::tool::{Step, ToolDataView};
use crate::update::{
    button_of, element_state_of, ButtonState, ToolEvent, ToolUpdate, WireEnum, BTN_STYLUS,
    BTN_STYLUS2, BTN_STYLUS3,
};

verus! {

/// Whatever a tool reported before a frame, the frame has at most one event
/// for entering, one for moving and one for leaving, and they come in that
/// order.
pub proof fn lemma_frame_events_in_order(
    data: ToolDataView,
    reports: Seq<Step>,
    scale_factor: Option<Scalar>,
)
    ensures
        ({
            let events = data.run(reports).frame_events(scale_factor);
            &&& events.len() <= 3
            &&& forall|i: int, j: int|
                0 <= i < j < events.len() ==> (#[trigger] events[i]).rank() < (
                #[trigger] events[j]).rank()
        }),
{
}

/// Every event of a frame carries the device id of the tool and one and the
/// same position: the tool's last position under the window's scale factor.
pub proof fn lemma_frame_events_share_position(data: ToolDataView, scale_factor: Option<Scalar>)
    ensures
        forall|i: int|
            0 <= i < data.frame_events(scale_factor).len() ==> {
                let event = #[trigger] data.frame_events(scale_factor)[i];
                &&& event.device_id() == data.device_id
                &&& event.position() == data.physical(scale_factor)
            },
{
}

/// A frame of a tool that has no position has no events.
pub proof fn lemma_no_position_no_events(data: ToolDataView, scale_factor: Option<Scalar>)
    requires
        data.position is None,
    ensures
        data.frame_events(scale_factor) == Seq::<WindowEvent>::empty(),
        data.after_frame(scale_factor) == data,
{
}

/// A tool that never reported a motion has no position, so none of its
/// frames has events.
pub proof fn lemma_never_moved_no_events(
    device_id: DeviceId,
    history: Seq<Step>,
    scale_factor: Option<Scalar>,
)
    requires
        forall|i: int|
            0 <= i < history.len() ==> !(#[trigger] history[i] matches Step::Report(
                ToolUpdate::Motion { .. },
            )),
    ensures
        ToolDataView::fresh(device_id).run(history).position is None,
        ToolDataView::fresh(device_id).run(history).frame_events(scale_factor) == Seq::<
            WindowEvent,
        >::empty(),
    decreases history.len(),
{
    if history.len() > 0 {
        lemma_never_moved_no_events(device_id, history.drop_last(), scale_factor);
        assert(!(history[history.len() - 1] matches Step::Report(ToolUpdate::Motion { .. })));
    }
}

/// A frame of a tool that neither entered nor moved nor left since the last
/// one has no events, even where the tool has a position.
pub proof fn lemma_idle_frame_no_events(data: ToolDataView, scale_factor: Option<Scalar>)
    requires
        !data.entered,
        !data.moved,
        !data.left,
    ensures
        data.frame_events(scale_factor) == Seq::<WindowEvent>::empty(),
{
}

/// A frame that reports leaves nothing pending: the frame that follows it at
/// once has no events.
pub proof fn lemma_second_frame_no_events(
    data: ToolDataView,
    first: Option<Scalar>,
    second: Option<Scalar>,
)
    requires
        data.reports(first),
    ensures
        data.after_frame(first).frame_events(second) == Seq::<WindowEvent>::empty(),
{
}

/// A tool that never reported a pressure moves with full force.
pub proof fn lemma_default_force_is_full(
    device_id: DeviceId,
    history: Seq<Step>,
    scale_factor: Option<Scalar>,
)
    requires
        forall|i: int|
            0 <= i < history.len() ==> !(#[trigger] history[i] matches Step::Report(
                ToolUpdate::Pressure { .. },
            )),
    ensures
        ToolDataView::fresh(device_id).run(history).pressure is None,
        ToolDataView::fresh(device_id).run(history).force().is_full(),
        forall|i: int|
            #![trigger ToolDataView::fresh(device_id).run(history).frame_events(scale_factor)[i]]
            {
                let events = ToolDataView::fresh(device_id).run(history).frame_events(
                    scale_factor,
                );
                0 <= i < events.len() ==> (events[i] matches WindowEvent::PointerMoved {
                    source,
                    ..
                } ==> source.force.is_full())
            },
    decreases history.len(),
{
    if history.len() > 0 {
        lemma_default_force_is_full(device_id, history.drop_last(), scale_factor);
        assert(!(history[history.len() - 1] matches Step::Report(ToolUpdate::Pressure { .. })));
    }
}

/// Between two frames the flags say what was reported: `moved` is up exactly
/// if a reading of a continuous axis came in, `entered` exactly if the tool
/// came into range, `left` exactly if it went out of range.
pub proof fn lemma_flags_tell_reports(
    data: ToolDataView,
    scale_factor: Option<Scalar>,
    updates: Seq<ToolUpdate>,
)
    requires
        data.reports(scale_factor),
    ensures
        ({
            let after = data.after_frame(scale_factor).run(updates.map_values(|u| Step::Report(u)));
            &&& after.moved <==> exists|i: int|
                0 <= i < updates.len() && (#[trigger] updates[i]).is_continuous()
            &&& after.entered <==> exists|i: int|
                0 <= i < updates.len() && #[trigger] updates[i] is ProximityIn
            &&& after.left <==> exists|i: int|
                0 <= i < updates.len() && #[trigger] updates[i] is ProximityOut
        }),
    decreases updates.len(),
{
    let steps = updates.map_values(|u| Step::Report(u));
    if updates.len() > 0 {
        let front = updates.drop_last();
        lemma_flags_tell_reports(data, scale_factor, front);
        assert(steps.drop_last() =~= front.map_values(|u| Step::Report(u)));
        assert(steps.last() == Step::Report(updates.last()));
        let before = data.after_frame(scale_factor).run(steps.drop_last());
        let after = data.after_frame(scale_factor).run(steps);
        assert(after == before.ingest(updates.last()));
        let last = updates.len() - 1;
        assert(forall|i: int| 0 <= i < front.len() ==> front[i] == updates[i]);
        if updates.last().is_continuous() {
            assert(updates[last].is_continuous());
        }
        if updates.last() is ProximityIn {
            assert(updates[last] is ProximityIn);
        }
        if updates.last() is ProximityOut {
            assert(updates[last] is ProximityOut);
        }
        if before.moved {
            let i = choose|i: int| 0 <= i < front.len() && (#[trigger] front[i]).is_continuous();
            assert(updates[i].is_continuous());
        }
        if before.entered {
            let i = choose|i: int| 0 <= i < front.len() && #[trigger] front[i] is ProximityIn;
            assert(updates[i] is ProximityIn);
        }
        if before.left {
            let i = choose|i: int| 0 <= i < front.len() && #[trigger] front[i] is ProximityOut;
            assert(updates[i] is ProximityOut);
        }
    }
}

/// A report overwrites what it is about and nothing else, so a repeated
/// report leaves the record as the first one did, button reports apart.
pub proof fn lemma_field_reports_idempotent(data: ToolDataView, update: ToolUpdate)
    requires
        !(update is Down),
        !(update is Up),
        !(update is Button),
    ensures
        data.ingest(update).ingest(update) == data.ingest(update),
{
}

/// Neither a report nor a frame changes the device id of a tool.
pub proof fn lemma_device_id_stays(data: ToolDataView, history: Seq<Step>)
    ensures
        data.run(history).device_id == data.device_id,
    decreases history.len(),
{
    if history.len() > 0 {
        lemma_device_id_stays(data, history.drop_last());
    }
}

/// A hardware button code always stands for the same button, and the button
/// keeps the code: two codes that give the same button are the same code.
/// A code other than those of the three barrel buttons is kept as it is.
pub proof fn lemma_button_codes_lossless(a: u32, b: u32)
    ensures
        button_of(a).code() == Some(a),
        button_of(a) == button_of(b) ==> a == b,
        button_of(BTN_STYLUS) == ToolButton::Button1,
        button_of(BTN_STYLUS2) == ToolButton::Button2,
        button_of(BTN_STYLUS3) == ToolButton::Button3,
        a != BTN_STYLUS && a != BTN_STYLUS2 && a != BTN_STYLUS3 ==> button_of(a)
            == ToolButton::Other(a),
{
}

/// A button report with a known state appends one transition to the queue:
/// the button of the code, pressed or released as reported. What was queued
/// before stays in front of it.
pub proof fn lemma_button_report_queued(data: ToolDataView, code: u32, state: ButtonState)
    ensures
        ({
            let after = data.ingest(
                ToolUpdate::Button { button: code, state: WireEnum::Value(state) },
            );
            &&& after.button_events.len() == data.button_events.len() + 1
            &&& after.button_events.last() == (button_of(code), element_state_of(state))
            &&& after.button_events.drop_last() == data.button_events
            &&& (element_state_of(state) == ElementState::Pressed) == (state
                == ButtonState::Pressed)
        }),
{
    let after = data.ingest(ToolUpdate::Button { button: code, state: WireEnum::Value(state) });
    assert(after.button_events.drop_last() =~= data.button_events);
}

/// Every notification keeps a registry well formed, so that at any time no
/// two registered tools share a device id.
pub proof fn lemma_device_ids_unique(
    registry: RegistryView,
    history: Seq<Notification>,
    a: u64,
    b: u64,
)
    requires
        registry.wf(),
        registry.announced + history.len() <= i64::MAX,
    ensures
        registry.run(history).wf(),
        ({
            let after = registry.run(history);
            after.contains(a) && after.contains(b) && a != b ==> after.records[a].device_id
                != after.records[b].device_id
        }),
{
    lemma_run_well_formed(registry, history);
}

/// A run of notifications keeps a registry well formed and announces at most
/// one tool per notification.
pub proof fn lemma_run_well_formed(registry: RegistryView, history: Seq<Notification>)
    requires
        registry.wf(),
        registry.announced + history.len() <= i64::MAX,
    ensures
        registry.run(history).wf(),
        registry.announced <= registry.run(history).announced <= registry.announced
            + history.len(),
    decreases history.len(),
{
    if history.len() > 0 {
        lemma_run_well_formed(registry, history.drop_last());
        lemma_notify_well_formed(registry.run(history.drop_last()), history.last());
    }
}

/// One notification keeps a registry well formed.
pub proof fn lemma_notify_well_formed(registry: RegistryView, notification: Notification)
    requires
        registry.wf(),
        registry.announced < i64::MAX,
    ensures
        registry.notify(notification).wf(),
        registry.notify(notification).announced == registry.announced + (if notification
            is ToolAdded {
            1nat
        } else {
            0nat
        }),
{
    let after = registry.notify(notification);
    match notification {
        Notification::ToolAdded { tool } => {
            assert forall|a: u64, b: u64|
                after.records.contains_key(a) && after.records.contains_key(b) && a != b
                    implies after.records[a].device_id != after.records[b].device_id by {
                if a != tool {
                    assert(registry.records.contains_key(a));
                }
                if b != tool {
                    assert(registry.records.contains_key(b));
                }
            }
        },
        Notification::Tool { tool, event, scale_factor } => {
            if registry.contains(tool) {
                assert forall|a: u64, b: u64|
                    after.records.contains_key(a) && after.records.contains_key(b) && a != b
                        implies after.records[a].device_id != after.records[b].device_id by {
                    assert(registry.records.contains_key(a));
                    assert(registry.records.contains_key(b));
                }
                assert forall|t: u64| #[trigger] after.records.contains_key(t) implies 0
                    <= after.records[t].device_id.raw < after.announced by {
                    assert(registry.records.contains_key(t));
                }
            }
        },
    }
}

/// Device ids go by the order of the announcements and start at zero: in a
/// session that starts with no tool, the tool that is announced after `n`
/// others gets the device id `n`, whatever else happened in between.
pub proof fn lemma_device_ids_in_announcement_order(history: Seq<Notification>, tool: u64)
    requires
        history.len() < i64::MAX,
    ensures
        ({
            let before = RegistryView::empty().run(history);
            let after = before.notify(Notification::ToolAdded { tool });
            &&& before.announced == announcements(history)
            &&& after.contains(tool)
            &&& after.records[tool].device_id.raw == announcements(history)
            &&& history.len() == 0 ==> after.records[tool].device_id.raw == 0
        }),
{
    lemma_announced_counts(history);
}

/// How many of the notifications of a history announce a tool.
pub open spec fn announcements(history: Seq<Notification>) -> nat
    decreases history.len(),
{
    if history.len() == 0 {
        0
    } else {
        announcements(history.drop_last()) + (if history.last() is ToolAdded {
            1nat
        } else {
            0nat
        })
    }
}

/// A registry that started empty has announced as many tools as its history
/// has announcements.
pub proof fn lemma_announced_counts(history: Seq<Notification>)
    ensures
        RegistryView::empty().run(history).announced == announcements(history),
        announcements(history) <= history.len(),
    decreases history.len(),
{
    if history.len() > 0 {
        lemma_announced_counts(history.drop_last());
    }
}

/// A tool that was removed is unknown: until it is announced again no
/// notification about it changes anything, and none gives rise to an event.
pub proof fn lemma_removed_tool_is_unknown(
    registry: RegistryView,
    tool: u64,
    event: ToolEvent,
    scale_factor: Option<Scalar>,
    removal_scale_factor: Option<Scalar>,
)
    ensures
        ({
            let after = registry.handle(tool, ToolEvent::Removed, removal_scale_factor);
            &&& !after.contains(tool)
            &&& after.handle(tool, event, scale_factor) == after
            &&& after.emitted(tool, event, scale_factor) == Seq::<WindowEvent>::empty()
        }),
{
}

/// A tool is registered exactly from its announcement to its removal: after
/// an announcement it is, after a removal it is not, and any other
/// notification leaves it as it was.
pub proof fn lemma_registered_between_announcement_and_removal(
    registry: RegistryView,
    notification: Notification,
    tool: u64,
)
    ensures
        registry.notify(notification).contains(tool) <==> (match notification {
            Notification::ToolAdded { tool: added } => added == tool || registry.contains(tool),
            Notification::Tool { tool: told, event: ToolEvent::Removed, .. } => told != tool
                && registry.contains(tool),
            Notification::Tool { .. } => registry.contains(tool),
        }),
{
}

/// What one tool tells changes nothing for another tool.
pub proof fn lemma_tools_independent(
    registry: RegistryView,
    tool: u64,
    event: ToolEvent,
    scale_factor: Option<Scalar>,
    other: u64,
)
    requires
        other != tool,
    ensures
        ({
            let after = registry.handle(tool, event, scale_factor);
            &&& after.contains(other) == registry.contains(other)
            &&& registry.contains(other) ==> after.records[other] == registry.records[other]
            &&& after.announced == registry.announced
        }),
{
}

} // verus!
