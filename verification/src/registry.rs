//! The tools of one seat: which are known, and under which device id.

use std::collections::hash_map::Entry;
use std::collections::HashMap;
use vstd::prelude::*;
use crate::error::TabletError;
use crate::event::{DeviceId, Scalar, WindowEvent};
use crate::tool::{ToolData, ToolDataView};
use crate::update::{ToolEvent, ToolUpdate};

verus! {

broadcast use vstd::std_specs::hash::group_hash_axioms;

/// What a registry holds, as a mathematical value.
#[verifier::ext_equal]
pub struct RegistryView {
    /// The record of each tool that was announced and not removed since.
    pub records: Map<u64, ToolDataView>,
    /// How many tools were announced so far.
    pub announced: nat,
}

impl RegistryView {
    pub open spec fn empty() -> Self {
        RegistryView { records: Map::empty(), announced: 0 }
    }

    pub open spec fn contains(self, tool: u64) -> bool {
        self.records.contains_key(tool)
    }

    /// The device id that the next announcement gets.
    pub open spec fn next_device_id(self) -> DeviceId {
        DeviceId { raw: self.announced as i64 }
    }

    /// The registry after `tool` was announced.
    pub open spec fn register(self, tool: u64) -> Self {
        RegistryView {
            records: self.records.insert(tool, ToolDataView::fresh(self.next_device_id())),
            announced: self.announced + 1,
        }
    }

    /// The registry after `tool` was removed.
    pub open spec fn unregister(self, tool: u64) -> Self {
        RegistryView { records: self.records.remove(tool), ..self }
    }

    /// The registry with another record for `tool`.
    pub open spec fn replace(self, tool: u64, data: ToolDataView) -> Self {
        RegistryView { records: self.records.insert(tool, data), ..self }
    }

    /// The registry after a notification about `tool`. A notification about a
    /// tool that is not registered changes nothing.
    pub open spec fn handle(self, tool: u64, event: ToolEvent, scale_factor: Option<Scalar>) -> Self {
        if !self.contains(tool) {
            self
        } else {
            match event {
                ToolEvent::Update(update) => self.replace(tool, self.records[tool].ingest(update)),
                ToolEvent::Frame => self.replace(
                    tool,
                    self.records[tool].after_frame(scale_factor),
                ),
                ToolEvent::Removed => self.unregister(tool),
            }
        }
    }

    /// The events that a notification about `tool` gives rise to: those of
    /// the frame where a frame of a registered tool ends, none otherwise.
    pub open spec fn emitted(
        self,
        tool: u64,
        event: ToolEvent,
        scale_factor: Option<Scalar>,
    ) -> Seq<WindowEvent> {
        if self.contains(tool) && event is Frame {
            self.records[tool].frame_events(scale_factor)
        } else {
            Seq::empty()
        }
    }

    /// Device ids count up from zero in the order of the announcements, and
    /// no two tools share one.
    pub open spec fn wf(self) -> bool {
        &&& self.records.dom().finite()
        &&& self.announced <= i64::MAX
        &&& forall|tool: u64| #[trigger]
            self.records.contains_key(tool) ==> 0 <= self.records[tool].device_id.raw
                < self.announced
        &&& forall|a: u64, b: u64|
            self.records.contains_key(a) && self.records.contains_key(b) && a != b
                ==> self.records[a].device_id != self.records[b].device_id
    }
}

/// One notification of a seat: a tool was announced, or a tool tells
/// something. `scale_factor` is the scale factor of the window that owns the
/// tool's surface at that time, `None` if no window does.
#[derive(Clone, Copy, Debug, PartialEq, Eq, Structural)]
pub enum Notification {
    ToolAdded { tool: u64 },
    Tool { tool: u64, event: ToolEvent, scale_factor: Option<Scalar> },
}

impl RegistryView {
    /// The registry after one notification.
    pub open spec fn notify(self, notification: Notification) -> Self {
        match notification {
            Notification::ToolAdded { tool } => self.register(tool),
            Notification::Tool { tool, event, scale_factor } => self.handle(
                tool,
                event,
                scale_factor,
            ),
        }
    }

    /// The registry after a run of notifications, oldest first.
    pub open spec fn run(self, history: Seq<Notification>) -> Self
        decreases history.len(),
    {
        if history.len() == 0 {
            self
        } else {
            self.run(history.drop_last()).notify(history.last())
        }
    }
}

/// The views of the records of a map of tools.
spec fn records_of(tools: Map<u64, ToolData>) -> Map<u64, ToolDataView> {
    Map::new(|tool: u64| tools.contains_key(tool), |tool: u64| tools[tool]@)
}

proof fn lemma_records_of_empty()
    ensures
        records_of(Map::empty()) == Map::<u64, ToolDataView>::empty(),
{
    assert(records_of(Map::empty()) =~= Map::<u64, ToolDataView>::empty());
}

proof fn lemma_records_of_insert(tools: Map<u64, ToolData>, tool: u64, data: ToolData)
    ensures
        records_of(tools.insert(tool, data)) == records_of(tools).insert(tool, data@),
{
    assert(records_of(tools.insert(tool, data)) =~= records_of(tools).insert(tool, data@));
}

proof fn lemma_records_of_remove(tools: Map<u64, ToolData>, tool: u64)
    ensures
        records_of(tools.remove(tool)) == records_of(tools).remove(tool),
{
    assert(records_of(tools.remove(tool)) =~= records_of(tools).remove(tool));
}

proof fn lemma_records_of_same(tools: Map<u64, ToolData>, tool: u64)
    ensures
        records_of(tools).contains_key(tool) == tools.contains_key(tool),
        tools.contains_key(tool) ==> records_of(tools)[tool] == tools[tool]@,
        records_of(tools).dom() == tools.dom(),
{
    assert(records_of(tools).dom() =~= tools.dom());
}

/// The tools of one seat, each with its pending state.
pub struct ToolRegistry {
    tools: HashMap<u64, ToolData>,
    next_device_id: u64,
}

impl View for ToolRegistry {
    type V = RegistryView;

    closed spec fn view(&self) -> RegistryView {
        RegistryView {
            records: records_of(self.tools@),
            announced: self.next_device_id as nat,
        }
    }
}

impl ToolRegistry {
    /// What every registry that this module hands out satisfies.
    pub open spec fn wf(&self) -> bool {
        self@.wf()
    }

    /// A registry that knows no tool.
    pub fn new() -> (registry: Self)
        ensures
            registry.wf(),
            registry@ == RegistryView::empty(),
    {
        proof {
            lemma_records_of_empty();
        }
        ToolRegistry { tools: HashMap::new(), next_device_id: 0 }
    }

    /// Looks a tool up for reading or changing its record.
    pub fn lookup(&mut self, tool: u64) -> (r: Result<&mut ToolData, TabletError>)
        ensures
            match r {
                Ok(data) => {
                    &&& old(self)@.contains(tool)
                    &&& data@ == old(self)@.records[tool]
                    &&& final(self)@ == old(self)@.replace(tool, final(data)@)
                    &&& old(self).wf() && final(data)@.device_id == data@.device_id
                        ==> final(self).wf()
                },
                Err(e) => {
                    &&& e == TabletError::UnknownTool
                    &&& !old(self)@.contains(tool)
                    &&& final(self)@ == old(self)@
                },
            },
    {
        let ghost tools = self.tools@;
        proof {
            lemma_records_of_same(tools, tool);
        }
        match self.tools.entry(tool) {
            Entry::Occupied(entry) => {
                let data = entry.into_mut();
                proof {
                    lemma_records_of_insert(tools, tool, *final(data));
                }
                Ok(data)
            },
            Entry::Vacant(_) => {
                proof {
                    assert(tools.remove(tool) =~= tools);
                }
                Err(TabletError::UnknownTool)
            },
        }
    }

    /// Reads the record of a tool.
    pub fn get(&self, tool: u64) -> (r: Result<&ToolData, TabletError>)
        ensures
            match r {
                Ok(data) => self@.contains(tool) && data@ == self@.records[tool],
                Err(e) => e == TabletError::UnknownTool && !self@.contains(tool),
            },
    {
        proof {
            lemma_records_of_same(self.tools@, tool);
        }
        match self.tools.get(&tool) {
            Some(data) => Ok(data),
            None => Err(TabletError::UnknownTool),
        }
    }

    /// Whether `tool` is registered.
    pub fn contains(&self, tool: u64) -> (r: bool)
        ensures
            r == self@.contains(tool),
    {
        proof {
            lemma_records_of_same(self.tools@, tool);
        }
        self.tools.contains_key(&tool)
    }

    /// How many tools are registered.
    pub fn len(&self) -> (n: usize)
        ensures
            n == self@.records.dom().len(),
    {
        proof {
            lemma_records_of_same(self.tools@, 0);
        }
        self.tools.len()
    }

    /// How many tools were announced so far: the device id that the next one
    /// gets.
    pub fn announced(&self) -> (n: u64)
        ensures
            n == self@.announced,
    {
        self.next_device_id
    }

    /// Registers a tool that was announced and gives it the next device id.
    /// A tool that is registered already starts over with a new record and
    /// a new device id.
    pub fn register(&mut self, tool: u64) -> (id: DeviceId)
        requires
            old(self)@.announced < i64::MAX,
        ensures
            old(self).wf() ==> final(self).wf(),
            id == old(self)@.next_device_id(),
            id.raw == old(self)@.announced,
            final(self)@ == old(self)@.register(tool),
    {
        let id = DeviceId::from_raw(self.next_device_id as i64);
        let data = ToolData::new(id);
        proof {
            lemma_records_of_insert(self.tools@, tool, data);
        }
        self.tools.insert(tool, data);
        self.next_device_id = self.next_device_id + 1;
        id
    }

    /// Forgets a tool that was removed.
    pub fn unregister(&mut self, tool: u64) -> (r: Result<(), TabletError>)
        ensures
            old(self).wf() ==> final(self).wf(),
            match r {
                Ok(()) => old(self)@.contains(tool) && final(self)@ == old(self)@.unregister(tool),
                Err(e) => {
                    &&& e == TabletError::UnknownTool
                    &&& !old(self)@.contains(tool)
                    &&& final(self)@ == old(self)@
                },
            },
    {
        proof {
            lemma_records_of_same(self.tools@, tool);
            lemma_records_of_remove(self.tools@, tool);
        }
        match self.tools.remove(&tool) {
            Some(_) => Ok(()),
            None => {
                assert(self.tools@ =~= old(self).tools@);
                Err(TabletError::UnknownTool)
            },
        }
    }

    /// Takes in one report of a tool.
    pub fn ingest(&mut self, tool: u64, update: ToolUpdate) -> (r: Result<(), TabletError>)
        ensures
            old(self).wf() ==> final(self).wf(),
            final(self)@ == old(self)@.handle(tool, ToolEvent::Update(update), None),
            match r {
                Ok(()) => old(self)@.contains(tool),
                Err(e) => e == TabletError::UnknownTool && !old(self)@.contains(tool),
            },
    {
        match self.lookup(tool) {
            Ok(data) => {
                data.ingest(update);
                Ok(())
            },
            Err(e) => Err(e),
        }
    }

    /// Ends a frame of a tool and returns its events. A frame that finds no
    /// window for the tool's surface has no events and changes nothing.
    pub fn frame(&mut self, tool: u64, scale_factor: Option<Scalar>) -> (r: Result<
        Vec<WindowEvent>,
        TabletError,
    >)
        ensures
            old(self).wf() ==> final(self).wf(),
            final(self)@ == old(self)@.handle(tool, ToolEvent::Frame, scale_factor),
            match r {
                Ok(events) => {
                    &&& old(self)@.contains(tool)
                    &&& events@ == old(self)@.emitted(tool, ToolEvent::Frame, scale_factor)
                },
                Err(e) => e == TabletError::UnknownTool && !old(self)@.contains(tool),
            },
    {
        match self.lookup(tool) {
            Ok(data) => {
                match data.flush(scale_factor) {
                    Ok(events) => Ok(events),
                    Err(_) => Ok(Vec::new()),
                }
            },
            Err(e) => Err(e),
        }
    }

    /// Takes in one notification about a tool: a report is stored, a frame
    /// is turned into events, a removal forgets the tool. Only a frame has
    /// events, and only a frame reads `scale_factor`: the scale factor of
    /// the window that owns the tool's surface, `None` if no window does.
    pub fn handle(&mut self, tool: u64, event: ToolEvent, scale_factor: Option<Scalar>) -> (r:
        Result<Vec<WindowEvent>, TabletError>)
        ensures
            old(self).wf() ==> final(self).wf(),
            final(self)@ == old(self)@.handle(tool, event, scale_factor),
            match r {
                Ok(events) => {
                    &&& old(self)@.contains(tool)
                    &&& events@ == old(self)@.emitted(tool, event, scale_factor)
                },
                Err(e) => e == TabletError::UnknownTool && !old(self)@.contains(tool),
            },
    {
        match event {
            ToolEvent::Update(update) => match self.ingest(tool, update) {
                Ok(()) => Ok(Vec::new()),
                Err(e) => Err(e),
            },
            ToolEvent::Frame => self.frame(tool, scale_factor),
            ToolEvent::Removed => match self.unregister(tool) {
                Ok(()) => Ok(Vec::new()),
                Err(e) => Err(e),
            },
        }
    }

    /// Takes in one notification of the seat, whichever tool it is about.
    pub fn notify(&mut self, notification: Notification) -> (r: Result<
        Vec<WindowEvent>,
        TabletError,
    >)
        requires
            notification is ToolAdded ==> old(self)@.announced < i64::MAX,
        ensures
            old(self).wf() ==> final(self).wf(),
            final(self)@ == old(self)@.notify(notification),
            match r {
                Ok(events) => match notification {
                    Notification::ToolAdded { .. } => events@ == Seq::<WindowEvent>::empty(),
                    Notification::Tool { tool, event, scale_factor } => {
                        &&& old(self)@.contains(tool)
                        &&& events@ == old(self)@.emitted(tool, event, scale_factor)
                    },
                },
                Err(e) => {
                    &&& e == TabletError::UnknownTool
                    &&& notification matches Notification::Tool { tool, .. }
                    &&& !old(self)@.contains(tool)
                },
            },
    {
        match notification {
            Notification::ToolAdded { tool } => {
                self.register(tool);
                Ok(Vec::new())
            },
            Notification::Tool { tool, event, scale_factor } => self.handle(
                tool,
                event,
                scale_factor,
            ),
        }
    }
}

} // verus!
