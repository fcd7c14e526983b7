//! The bridge to the device server.
//!
//! Requests to the server take time, so the bridge never makes them itself.
//! It says which request is due ([`BridgeRequest`], [`ServerCall`]), takes the
//! server's reply, and says which event the input side is owed
//! ([`ViiperEvent`]). What it keeps is small: whether a server is configured,
//! the bus that all devices share, and one outbound queue of input reports
//! for every device whose stream stands.

use vstd::prelude::*;
use std::collections::HashMap;
use crate::device::{
    Device, DeviceState, ViiperDevice, ViiperDeviceView, Xbox360Input, INPUT_SIZE, OUTPUT_SIZE,
};

verus! {

broadcast use vstd::std_specs::hash::group_hash_axioms;

/// What the bridge reports back to the input side.
#[derive(Clone, Debug)]
pub enum ViiperEvent {
    ServerDisconnected { device_id: u64 },
    DeviceCreated { device_id: u64, viiper_device: ViiperDevice },
    DeviceConnected { device_id: u64 },
    DeviceRumble { device_id: u64, l: u8, r: u8 },
    ErrorCreateDevice { device_id: u64 },
    ErrorConnectDevice { device_id: u64 },
}

/// The contents of a [`ViiperEvent`].
pub enum ViiperEventView {
    ServerDisconnected { device_id: u64 },
    DeviceCreated { device_id: u64, viiper_device: ViiperDeviceView },
    DeviceConnected { device_id: u64 },
    DeviceRumble { device_id: u64, l: u8, r: u8 },
    ErrorCreateDevice { device_id: u64 },
    ErrorConnectDevice { device_id: u64 },
}

impl View for ViiperEvent {
    type V = ViiperEventView;

    open spec fn view(&self) -> ViiperEventView {
        match *self {
            ViiperEvent::ServerDisconnected { device_id } => ViiperEventView::ServerDisconnected {
                device_id,
            },
            ViiperEvent::DeviceCreated { device_id, viiper_device } => {
                ViiperEventView::DeviceCreated { device_id, viiper_device: viiper_device@ }
            },
            ViiperEvent::DeviceConnected { device_id } => ViiperEventView::DeviceConnected {
                device_id,
            },
            ViiperEvent::DeviceRumble { device_id, l, r } => ViiperEventView::DeviceRumble {
                device_id,
                l,
                r,
            },
            ViiperEvent::ErrorCreateDevice { device_id } => ViiperEventView::ErrorCreateDevice {
                device_id,
            },
            ViiperEvent::ErrorConnectDevice { device_id } => ViiperEventView::ErrorConnectDevice {
                device_id,
            },
        }
    }
}

/// What the bridge asks of its caller when a device is to be created or connected.
#[derive(Clone, Debug)]
pub enum BridgeRequest {
    /// Hand this event to the input side; nothing was asked of the server.
    Emit(ViiperEvent),
    /// Run a creation task for the device ([`ViiperBridge::start_create`]).
    Create { device_id: u64, device_type: String },
    /// Open a stream to the virtual device and report with
    /// [`ViiperBridge::connect_finished`].
    Connect { device_id: u64, bus_id: u32, dev_id: String },
}

/// The contents of a [`BridgeRequest`].
pub enum BridgeRequestView {
    Emit(ViiperEventView),
    Create { device_id: u64, device_type: Seq<char> },
    Connect { device_id: u64, bus_id: u32, dev_id: Seq<char> },
}

impl View for BridgeRequest {
    type V = BridgeRequestView;

    open spec fn view(&self) -> BridgeRequestView {
        match *self {
            BridgeRequest::Emit(e) => BridgeRequestView::Emit(e@),
            BridgeRequest::Create { device_id, device_type } => BridgeRequestView::Create {
                device_id,
                device_type: device_type@,
            },
            BridgeRequest::Connect { device_id, bus_id, dev_id } => BridgeRequestView::Connect {
                device_id,
                bus_id,
                dev_id: dev_id@,
            },
        }
    }
}

/// A request to the device server.
#[derive(Clone, Debug)]
pub enum ServerCall {
    ListBuses,
    CreateBus,
    AddDevice { bus_id: u32, device_type: String },
}

/// The contents of a [`ServerCall`].
pub enum ServerCallView {
    ListBuses,
    CreateBus,
    AddDevice { bus_id: u32, device_type: Seq<char> },
}

impl View for ServerCall {
    type V = ServerCallView;

    open spec fn view(&self) -> ServerCallView {
        match *self {
            ServerCall::ListBuses => ServerCallView::ListBuses,
            ServerCall::CreateBus => ServerCallView::CreateBus,
            ServerCall::AddDevice { bus_id, device_type } => ServerCallView::AddDevice {
                bus_id,
                device_type: device_type@,
            },
        }
    }
}

/// The server's reply to a [`ServerCall`]; `Failed` for any error.
#[derive(Clone, Debug)]
pub enum ServerReply {
    Buses(Vec<u32>),
    BusCreated(u32),
    DeviceAdded(ViiperDevice),
    Failed,
}

/// The contents of a [`ServerReply`].
pub enum ServerReplyView {
    Buses(Seq<u32>),
    BusCreated(u32),
    DeviceAdded(ViiperDeviceView),
    Failed,
}

impl View for ServerReply {
    type V = ServerReplyView;

    open spec fn view(&self) -> ServerReplyView {
        match *self {
            ServerReply::Buses(b) => ServerReplyView::Buses(b@),
            ServerReply::BusCreated(id) => ServerReplyView::BusCreated(id),
            ServerReply::DeviceAdded(d) => ServerReplyView::DeviceAdded(d@),
            ServerReply::Failed => ServerReplyView::Failed,
        }
    }
}

/// How far the creation of one virtual device has come.
#[derive(Clone, Copy, Debug, PartialEq, Eq, Structural)]
pub enum CreatePhase {
    /// The cached bus is being looked for in the server's listing.
    ListingBuses { cached: u32 },
    /// A new bus was asked for.
    CreatingBus,
    /// The device was asked for on this bus.
    AddingDevice { bus_id: u32 },
    /// The task has reported its event.
    Finished,
}

/// The creation of one virtual device, step by step.
#[derive(Clone, Debug)]
pub struct CreateTask {
    pub device_id: u64,
    pub device_type: String,
    pub phase: CreatePhase,
}

/// The contents of a [`CreateTask`].
pub struct CreateTaskView {
    pub device_id: u64,
    pub device_type: Seq<char>,
    pub phase: CreatePhase,
}

impl View for CreateTask {
    type V = CreateTaskView;

    open spec fn view(&self) -> CreateTaskView {
        CreateTaskView {
            device_id: self.device_id,
            device_type: self.device_type@,
            phase: self.phase,
        }
    }
}

/// What a creation task does next.
#[derive(Clone, Debug)]
pub enum TaskStep {
    /// Make this request and come back with the reply.
    Call(ServerCall),
    /// The task is over; hand this event to the input side.
    Done(ViiperEvent),
}

/// The contents of a [`TaskStep`].
pub enum TaskStepView {
    Call(ServerCallView),
    Done(ViiperEventView),
}

impl View for TaskStep {
    type V = TaskStepView;

    open spec fn view(&self) -> TaskStepView {
        match *self {
            TaskStep::Call(c) => TaskStepView::Call(c@),
            TaskStep::Done(e) => TaskStepView::Done(e@),
        }
    }
}

/// What the send loop of a stream finds in the device's outbound queue.
#[derive(Clone, Debug)]
pub enum StreamPoll {
    /// The oldest report, as the bytes to write to the stream.
    Frame(Vec<u8>),
    /// Nothing is waiting.
    Idle,
    /// The queue is gone: the loop ends and the stream is closed.
    Closed,
}

/// The four bytes of `v`, lowest first.
pub open spec fn le32(v: u32) -> Seq<u8> {
    seq![
        (v as int % 256) as u8,
        (v as int / 256 % 256) as u8,
        (v as int / 65536 % 256) as u8,
        (v as int / 16777216) as u8,
    ]
}

/// The two bytes of `v` in two's complement, lower first.
pub open spec fn le16(v: i16) -> Seq<u8> {
    let u: int = if v < 0 {
        v + 65536
    } else {
        v as int
    };
    seq![(u % 256) as u8, (u / 256) as u8]
}

/// An input report on the wire: buttons, left and right trigger, the four
/// stick axes, six reserved zero bytes; every number lowest byte first.
pub open spec fn wire_frame(input: Xbox360Input) -> Seq<u8> {
    le32(input.buttons) + seq![input.lt, input.rt] + le16(input.lx) + le16(input.ly) + le16(
        input.rx,
    ) + le16(input.ry) + seq![0u8, 0u8, 0u8, 0u8, 0u8, 0u8]
}

/// Every input frame has the same length.
pub proof fn lemma_wire_frame_len(input: Xbox360Input)
    ensures
        wire_frame(input).len() == INPUT_SIZE,
{
}

/// Calls `DeviceInput::to_bytes` of the crate `viiper_client` on its
/// `Xbox360Input` with the fields of `input` and the reserved bytes at their
/// default. The contract claims the byte layout that the method writes: each
/// field in declaration order, little-endian, 20 bytes in all.
#[verifier::external_body]
pub(crate) fn encode_input(input: &Xbox360Input) -> (r: Vec<u8>)
    ensures
        r@ == wire_frame(*input),
{
    let wire = viiper_client::devices::xbox360::Xbox360Input {
        buttons: input.buttons,
        lt: input.lt,
        rt: input.rt,
        lx: input.lx,
        ly: input.ly,
        rx: input.rx,
        ry: input.ry,
        ..Default::default()
    };
    viiper_client::DeviceInput::to_bytes(&wire)
}

/// The state of the bridge.
pub struct BridgeView {
    /// Whether a server address is configured.
    pub has_client: bool,
    /// The bus that devices are created on, once one is known.
    pub bus_id: Option<u32>,
    /// The reports waiting to be sent, oldest first, for every device whose
    /// stream stands.
    pub queues: Map<u64, Seq<Xbox360Input>>,
}

impl BridgeView {
    /// The bridge before anything happened.
    pub open spec fn fresh(has_client: bool) -> BridgeView {
        BridgeView { has_client, bus_id: None, queues: Map::empty() }
    }

    /// The request that creating `device` leads to.
    pub open spec fn create_request(self, device_id: u64, device_type: Seq<char>) -> BridgeRequestView {
        if self.has_client {
            BridgeRequestView::Create { device_id, device_type }
        } else {
            BridgeRequestView::Emit(ViiperEventView::ErrorCreateDevice { device_id })
        }
    }

    /// The request that connecting a device leads to.
    pub open spec fn connect_request(
        self,
        device_id: u64,
        remote: Option<ViiperDeviceView>,
    ) -> BridgeRequestView {
        match remote {
            Some(r) if self.has_client => BridgeRequestView::Connect {
                device_id,
                bus_id: r.bus_id,
                dev_id: r.dev_id,
            },
            _ => BridgeRequestView::Emit(ViiperEventView::ErrorConnectDevice { device_id }),
        }
    }

    /// The bridge after the stream of `device_id` was opened: the device has
    /// an empty queue.
    pub open spec fn opened(self, device_id: u64) -> BridgeView {
        BridgeView { queues: self.queues.insert(device_id, Seq::empty()), ..self }
    }

    /// The bridge without the queue of `device_id`.
    pub open spec fn without(self, device_id: u64) -> BridgeView {
        BridgeView { queues: self.queues.remove(device_id), ..self }
    }

    /// The bridge after `input` was handed in for `device_id`: appended to the
    /// device's queue if it has one, dropped otherwise.
    pub open spec fn enqueued(self, device_id: u64, input: Xbox360Input) -> BridgeView {
        if self.queues.contains_key(device_id) {
            BridgeView {
                queues: self.queues.insert(device_id, self.queues[device_id].push(input)),
                ..self
            }
        } else {
            self
        }
    }

    /// The bridge after the oldest report of `device_id` was taken.
    pub open spec fn dequeued(self, device_id: u64) -> BridgeView {
        if self.queues.contains_key(device_id) && self.queues[device_id].len() > 0 {
            BridgeView {
                queues: self.queues.insert(device_id, self.queues[device_id].drop_first()),
                ..self
            }
        } else {
            self
        }
    }

    /// The first request of a creation task: look the cached bus up, or ask
    /// for a bus where none is cached.
    pub open spec fn first_call(self) -> ServerCallView {
        match self.bus_id {
            Some(_) => ServerCallView::ListBuses,
            None => ServerCallView::CreateBus,
        }
    }

    /// The phase in which a creation task starts.
    pub open spec fn first_phase(self) -> CreatePhase {
        match self.bus_id {
            Some(cached) => CreatePhase::ListingBuses { cached },
            None => CreatePhase::CreatingBus,
        }
    }
}

/// What a creation task does with a reply: its next phase, the bus to cache
/// from now on (if the reply settled one), and its next step.
///
/// A listing that holds the cached bus settles that bus, and the device is
/// asked for on it. A listing without it leads to the request for a new
/// bus, whose id is settled when it arrives. Any reply that does not answer
/// the request of the phase ends the task with `ErrorCreateDevice`.
pub open spec fn spec_continue(task: CreateTaskView, reply: ServerReplyView) -> (
    CreatePhase,
    Option<u32>,
    TaskStepView,
) {
    let failed = (
        CreatePhase::Finished,
        None::<u32>,
        TaskStepView::Done(ViiperEventView::ErrorCreateDevice { device_id: task.device_id }),
    );
    match (task.phase, reply) {
        (CreatePhase::ListingBuses { cached }, ServerReplyView::Buses(buses)) => {
            if buses.contains(cached) {
                (
                    CreatePhase::AddingDevice { bus_id: cached },
                    Some(cached),
                    TaskStepView::Call(
                        ServerCallView::AddDevice { bus_id: cached, device_type: task.device_type },
                    ),
                )
            } else {
                (CreatePhase::CreatingBus, None, TaskStepView::Call(ServerCallView::CreateBus))
            }
        },
        (CreatePhase::CreatingBus, ServerReplyView::BusCreated(id)) => (
            CreatePhase::AddingDevice { bus_id: id },
            Some(id),
            TaskStepView::Call(
                ServerCallView::AddDevice { bus_id: id, device_type: task.device_type },
            ),
        ),
        (CreatePhase::AddingDevice { bus_id }, ServerReplyView::DeviceAdded(device)) => (
            CreatePhase::Finished,
            None,
            TaskStepView::Done(
                ViiperEventView::DeviceCreated { device_id: task.device_id, viiper_device: device },
            ),
        ),
        _ => failed,
    }
}

/// The event that an output frame of a stream leads to: a frame of the
/// expected size carries the two rumble intensities in its first two bytes;
/// anything else ends the stream.
pub open spec fn spec_output_event(device_id: u64, frame: Seq<u8>) -> ViiperEventView {
    if frame.len() == OUTPUT_SIZE {
        ViiperEventView::DeviceRumble { device_id, l: frame[0], r: frame[1] }
    } else {
        ViiperEventView::ServerDisconnected { device_id }
    }
}

/// Decodes an output frame that was read from the stream of `device_id`.
pub fn output_event(device_id: u64, frame: &Vec<u8>) -> (r: ViiperEvent)
    ensures
        r@ == spec_output_event(device_id, frame@),
{
    if frame.len() == OUTPUT_SIZE {
        ViiperEvent::DeviceRumble { device_id, l: frame[0], r: frame[1] }
    } else {
        ViiperEvent::ServerDisconnected { device_id }
    }
}

/// Whether `id` is among `buses`.
pub fn bus_listed(buses: &Vec<u32>, id: u32) -> (r: bool)
    ensures
        r == buses@.contains(id),
{
    let mut i: usize = 0;
    while i < buses.len()
        invariant
            i <= buses@.len(),
            forall|k: int| 0 <= k < i ==> buses@[k] != id,
        decreases buses@.len() - i,
    {
        if buses[i] == id {
            return true;
        }
        i = i + 1;
    }
    false
}

/// The bridge to the device server.
pub struct ViiperBridge {
    has_client: bool,
    bus_id: Option<u32>,
    streams: HashMap<u64, Vec<Xbox360Input>>,
}

impl View for ViiperBridge {
    type V = BridgeView;

    closed spec fn view(&self) -> BridgeView {
        BridgeView {
            has_client: self.has_client,
            bus_id: self.bus_id,
            queues: Map::new(
                |k: u64| self.streams@.contains_key(k),
                |k: u64| self.streams@[k]@,
            ),
        }
    }
}

impl ViiperBridge {
    /// A bridge without bus or streams. Without a server address
    /// (`has_client` false) every creation and connection fails at once.
    pub fn new(has_client: bool) -> (r: Self)
        ensures
            r@ == BridgeView::fresh(has_client),
    {
        let r = ViiperBridge { has_client, bus_id: None, streams: HashMap::new() };
        assert(r@.queues =~= Map::empty());
        r
    }

    /// The cached bus.
    pub fn bus_id(&self) -> (r: Option<u32>)
        ensures
            r == self@.bus_id,
    {
        self.bus_id
    }

    /// Whether the stream of `device_id` stands.
    pub fn has_stream(&self, device_id: u64) -> (r: bool)
        ensures
            r == self@.queues.contains_key(device_id),
    {
        self.streams.contains_key(&device_id)
    }

    /// How many reports wait for `device_id`; `None` without a stream.
    pub fn pending(&self, device_id: u64) -> (r: Option<usize>)
        ensures
            match r {
                Some(n) => self@.queues.contains_key(device_id) && n
                    == self@.queues[device_id].len(),
                None => !self@.queues.contains_key(device_id),
            },
    {
        match self.streams.get(&device_id) {
            Some(q) => Some(q.len()),
            None => None,
        }
    }

    /// Asks for a virtual device of the type of `device`. Without a server
    /// the answer is the error event; else a creation task is due.
    pub fn create_device(&self, device: &Device) -> (r: BridgeRequest)
        ensures
            r@ == self@.create_request(device@.id, device@.viiper_type),
    {
        if !self.has_client {
            return BridgeRequest::Emit(ViiperEvent::ErrorCreateDevice { device_id: device.id });
        }
        BridgeRequest::Create { device_id: device.id, device_type: device.viiper_type.clone() }
    }

    /// Asks for the stream to the virtual device of `device`. Without a
    /// virtual device or without a server the answer is the error event.
    pub fn connect_device(&self, device: &Device) -> (r: BridgeRequest)
        ensures
            r@ == self@.connect_request(device@.id, device@.viiper_device),
    {
        match &device.viiper_device {
            Some(remote) => {
                if self.has_client {
                    BridgeRequest::Connect {
                        device_id: device.id,
                        bus_id: remote.bus_id,
                        dev_id: remote.dev_id.clone(),
                    }
                } else {
                    BridgeRequest::Emit(
                        ViiperEvent::ErrorConnectDevice { device_id: device.id },
                    )
                }
            },
            None => BridgeRequest::Emit(ViiperEvent::ErrorConnectDevice { device_id: device.id }),
        }
    }

    /// Starts the creation task that a [`BridgeRequest::Create`] asked for.
    pub fn start_create(&self, device_id: u64, device_type: String) -> (r: (CreateTask, ServerCall))
        ensures
            r.0@ == (CreateTaskView {
                device_id,
                device_type: device_type@,
                phase: self@.first_phase(),
            }),
            r.1@ == self@.first_call(),
    {
        match self.bus_id {
            Some(cached) => (
                CreateTask { device_id, device_type, phase: CreatePhase::ListingBuses { cached } },
                ServerCall::ListBuses,
            ),
            None => (
                CreateTask { device_id, device_type, phase: CreatePhase::CreatingBus },
                ServerCall::CreateBus,
            ),
        }
    }

    /// Takes the server's reply to the last request of `task`; see
    /// [`spec_continue`]. A bus that the reply settles is cached.
    pub fn continue_create(&mut self, task: &mut CreateTask, reply: ServerReply) -> (r: TaskStep)
        ensures
            final(task)@.device_id == old(task)@.device_id,
            final(task)@.device_type == old(task)@.device_type,
            final(task)@.phase == spec_continue(old(task)@, reply@).0,
            r@ == spec_continue(old(task)@, reply@).2,
            final(self)@ == (BridgeView {
                bus_id: match spec_continue(old(task)@, reply@).1 {
                    Some(id) => Some(id),
                    None => old(self)@.bus_id,
                },
                ..old(self)@
            }),
    {
        let device_id: u64 = task.device_id;
        match (task.phase, reply) {
            (CreatePhase::ListingBuses { cached }, ServerReply::Buses(buses)) => {
                if bus_listed(&buses, cached) {
                    task.phase = CreatePhase::AddingDevice { bus_id: cached };
                    self.bus_id = Some(cached);
                    TaskStep::Call(
                        ServerCall::AddDevice {
                            bus_id: cached,
                            device_type: task.device_type.clone(),
                        },
                    )
                } else {
                    task.phase = CreatePhase::CreatingBus;
                    TaskStep::Call(ServerCall::CreateBus)
                }
            },
            (CreatePhase::CreatingBus, ServerReply::BusCreated(id)) => {
                task.phase = CreatePhase::AddingDevice { bus_id: id };
                self.bus_id = Some(id);
                TaskStep::Call(
                    ServerCall::AddDevice { bus_id: id, device_type: task.device_type.clone() },
                )
            },
            (CreatePhase::AddingDevice { bus_id }, ServerReply::DeviceAdded(device)) => {
                task.phase = CreatePhase::Finished;
                TaskStep::Done(ViiperEvent::DeviceCreated { device_id, viiper_device: device })
            },
            _ => {
                task.phase = CreatePhase::Finished;
                TaskStep::Done(ViiperEvent::ErrorCreateDevice { device_id })
            },
        }
    }

    /// Takes the outcome of opening the stream that a
    /// [`BridgeRequest::Connect`] asked for. A stream that stands gets an
    /// empty outbound queue, replacing any earlier one of the device.
    pub fn connect_finished(&mut self, device_id: u64, connected: bool) -> (r: ViiperEvent)
        ensures
            final(self)@ == if connected {
                old(self)@.opened(device_id)
            } else {
                old(self)@
            },
            r@ == if connected {
                ViiperEventView::DeviceConnected { device_id }
            } else {
                ViiperEventView::ErrorConnectDevice { device_id }
            },
    {
        if connected {
            self.streams.insert(device_id, Vec::new());
            assert(final(self)@.queues =~= old(self)@.opened(device_id).queues);
            ViiperEvent::DeviceConnected { device_id }
        } else {
            ViiperEvent::ErrorConnectDevice { device_id }
        }
    }

    /// Drops the outbound queue of `device_id`, which ends its send loop;
    /// tells whether there was one.
    pub fn remove_device(&mut self, device_id: u64) -> (r: bool)
        ensures
            r == old(self)@.queues.contains_key(device_id),
            final(self)@ == old(self)@.without(device_id),
    {
        let had: bool = self.streams.remove(&device_id).is_some();
        assert(final(self)@.queues =~= old(self)@.without(device_id).queues);
        had
    }

    /// Puts the input of `state` at the end of the queue of `device_id`.
    /// Without a queue nothing is kept and nothing changes; the answer tells
    /// whether the report was queued.
    pub fn update_device_state(&mut self, device_id: u64, state: &DeviceState) -> (r: bool)
        ensures
            r == old(self)@.queues.contains_key(device_id),
            final(self)@ == old(self)@.enqueued(device_id, state.input),
            !r ==> final(self)@ == old(self)@,
    {
        match self.streams.remove(&device_id) {
            Some(mut queue) => {
                queue.push(state.input);
                self.streams.insert(device_id, queue);
                assert(final(self)@.queues =~= old(self)@.enqueued(device_id, state.input).queues);
                true
            },
            None => {
                assert(final(self)@.queues =~= old(self)@.queues);
                false
            },
        }
    }

    /// Takes the oldest waiting report of `device_id` for sending.
    pub fn next_frame(&mut self, device_id: u64) -> (r: StreamPoll)
        ensures
            final(self)@ == old(self)@.dequeued(device_id),
            match r {
                StreamPoll::Frame(bytes) => old(self)@.queues.contains_key(device_id) && old(
                    self,
                )@.queues[device_id].len() > 0 && bytes@ == wire_frame(
                    old(self)@.queues[device_id][0],
                ),
                StreamPoll::Idle => old(self)@.queues.contains_key(device_id) && old(
                    self,
                )@.queues[device_id].len() == 0,
                StreamPoll::Closed => !old(self)@.queues.contains_key(device_id),
            },
    {
        match self.streams.remove(&device_id) {
            Some(mut queue) => {
                if queue.len() == 0 {
                    self.streams.insert(device_id, queue);
                    assert(final(self)@.queues =~= old(self)@.queues);
                    StreamPoll::Idle
                } else {
                    let first: Xbox360Input = queue.remove(0);
                    self.streams.insert(device_id, queue);
                    assert(final(self)@.queues =~= old(self)@.dequeued(device_id).queues);
                    StreamPoll::Frame(encode_input(&first))
                }
            },
            None => {
                assert(final(self)@.queues =~= old(self)@.queues);
                StreamPoll::Closed
            },
        }
    }
}

/// Reports leave a queue in the order in which they came: taking the
/// oldest report and queueing a new one can be done in either order as long
/// as a report is waiting, and a report that is queued alone is the next
/// one taken.
pub proof fn lemma_reports_leave_in_order(b: BridgeView, device_id: u64, input: Xbox360Input)
    requires
        b.queues.contains_key(device_id),
    ensures
        b.enqueued(device_id, input).queues[device_id] == b.queues[device_id].push(input),
        b.queues[device_id].len() > 0 ==> b.enqueued(device_id, input).dequeued(device_id)
            == b.dequeued(device_id).enqueued(device_id, input),
        b.queues[device_id].len() > 0 ==> b.enqueued(device_id, input).queues[device_id][0]
            == b.queues[device_id][0],
        b.queues[device_id].len() == 0 ==> b.enqueued(device_id, input).queues[device_id][0]
            == input && b.enqueued(device_id, input).dequeued(device_id) == b,
{
    let q = b.queues[device_id];
    let e = b.enqueued(device_id, input);
    if q.len() > 0 {
        let left = e.dequeued(device_id);
        let right = b.dequeued(device_id).enqueued(device_id, input);
        assert(q.push(input).drop_first() =~= q.drop_first().push(input));
        assert(left.queues =~= right.queues);
    } else {
        assert(q.push(input).drop_first() =~= q);
        assert(e.dequeued(device_id).queues =~= b.queues);
    }
}

/// Without a queue a report leaves no trace: the bridge is as it was.
pub proof fn lemma_report_without_stream_is_dropped(
    b: BridgeView,
    device_id: u64,
    input: Xbox360Input,
)
    requires
        !b.queues.contains_key(device_id),
    ensures
        b.enqueued(device_id, input) == b,
{
}

/// How many of the given steps ask for a new bus.
pub open spec fn bus_creations(steps: Seq<TaskStepView>) -> nat
    decreases steps.len(),
{
    if steps.len() == 0 {
        0
    } else {
        bus_creations(steps.drop_last()) + if steps.last() == TaskStepView::Call(
            ServerCallView::CreateBus,
        ) {
            1nat
        } else {
            0nat
        }
    }
}

/// The phase of a task after it took `replies` in order.
pub open spec fn phase_after(task: CreateTaskView, replies: Seq<ServerReplyView>) -> CreatePhase
    decreases replies.len(),
{
    if replies.len() == 0 {
        task.phase
    } else {
        let before = CreateTaskView { phase: phase_after(task, replies.drop_last()), ..task };
        spec_continue(before, replies.last()).0
    }
}

/// The steps that a task takes while it is given `replies` in order.
pub open spec fn steps_for(task: CreateTaskView, replies: Seq<ServerReplyView>) -> Seq<TaskStepView>
    decreases replies.len(),
{
    if replies.len() == 0 {
        Seq::empty()
    } else {
        let before = CreateTaskView { phase: phase_after(task, replies.drop_last()), ..task };
        steps_for(task, replies.drop_last()).push(spec_continue(before, replies.last()).2)
    }
}

/// A task that found its cached bus in the listing uses that bus: it asks
/// for no bus, asks for the device on the cached bus, and the cache keeps
/// the id.
pub proof fn lemma_listed_bus_is_kept(task: CreateTaskView, cached: u32, buses: Seq<u32>)
    requires
        task.phase == (CreatePhase::ListingBuses { cached }),
        buses.contains(cached),
    ensures
        spec_continue(task, ServerReplyView::Buses(buses)).2 == TaskStepView::Call(
            ServerCallView::AddDevice { bus_id: cached, device_type: task.device_type },
        ),
        spec_continue(task, ServerReplyView::Buses(buses)).1 == Some(cached),
        bus_creations(steps_for(task, seq![ServerReplyView::Buses(buses)])) == 0,
{
    let replies = seq![ServerReplyView::Buses(buses)];
    assert(replies.drop_last() =~= Seq::<ServerReplyView>::empty());
    assert(steps_for(task, replies.drop_last()) =~= Seq::<TaskStepView>::empty());
    let steps = steps_for(task, replies);
    assert(steps.drop_last() =~= Seq::<TaskStepView>::empty());
    assert(bus_creations(steps.drop_last()) == 0);
}

/// A task whose cached bus is missing from the listing asks for exactly one
/// new bus, and the id that the server answers with becomes the cached bus
/// on which the device is asked for.
pub proof fn lemma_stale_bus_is_replaced_once(
    task: CreateTaskView,
    cached: u32,
    buses: Seq<u32>,
    created: u32,
)
    requires
        task.phase == (CreatePhase::ListingBuses { cached }),
        !buses.contains(cached),
    ensures
        ({
            let replies = seq![ServerReplyView::Buses(buses), ServerReplyView::BusCreated(created)];
            &&& steps_for(task, replies) == seq![
                TaskStepView::Call(ServerCallView::CreateBus),
                TaskStepView::Call(
                    ServerCallView::AddDevice { bus_id: created, device_type: task.device_type },
                ),
            ]
            &&& bus_creations(steps_for(task, replies)) == 1
            &&& spec_continue(
                CreateTaskView { phase: CreatePhase::CreatingBus, ..task },
                ServerReplyView::BusCreated(created),
            ).1 == Some(created)
        }),
{
    let r1 = ServerReplyView::Buses(buses);
    let r2 = ServerReplyView::BusCreated(created);
    let replies = seq![r1, r2];
    let one = seq![r1];
    assert(replies.drop_last() =~= one);
    assert(one.drop_last() =~= Seq::<ServerReplyView>::empty());
    assert(steps_for(task, one.drop_last()) =~= Seq::<TaskStepView>::empty());
    assert(phase_after(task, one.drop_last()) == task.phase);
    let s1 = steps_for(task, one);
    assert(s1 =~= seq![TaskStepView::Call(ServerCallView::CreateBus)]);
    assert(phase_after(task, one) == CreatePhase::CreatingBus);
    let s2 = steps_for(task, replies);
    let expected = seq![
        TaskStepView::Call(ServerCallView::CreateBus),
        TaskStepView::Call(
            ServerCallView::AddDevice { bus_id: created, device_type: task.device_type },
        ),
    ];
    assert(s2 =~= expected);
    assert(s2.drop_last() =~= s1);
    assert(s1.drop_last() =~= Seq::<TaskStepView>::empty());
    assert(bus_creations(s1.drop_last()) == 0);
    assert(bus_creations(s1) == 1);
    assert(bus_creations(s2) == 1);
}

/// The rank of a phase: a task only ever moves to a higher one.
pub open spec fn phase_rank(p: CreatePhase) -> nat {
    match p {
        CreatePhase::ListingBuses { .. } => 0,
        CreatePhase::CreatingBus => 1,
        CreatePhase::AddingDevice { .. } => 2,
        CreatePhase::Finished => 3,
    }
}

/// Whatever the server replies, a creation task that starts with a listing
/// asks for at most one new bus.
pub proof fn lemma_at_most_one_bus_per_task(task: CreateTaskView, replies: Seq<ServerReplyView>)
    requires
        task.phase is ListingBuses,
    ensures
        bus_creations(steps_for(task, replies)) <= 1,
        bus_creations(steps_for(task, replies)) == 1 ==> phase_rank(phase_after(task, replies))
            >= 1,
    decreases replies.len(),
{
    if replies.len() > 0 {
        let shorter = replies.drop_last();
        lemma_at_most_one_bus_per_task(task, shorter);
        lemma_phase_tells_bus_creations(task, shorter);
        let steps = steps_for(task, replies);
        assert(steps.drop_last() =~= steps_for(task, shorter));
    }
}

/// While a task that started with a listing is still listing, it has asked
/// for no bus.
pub proof fn lemma_phase_tells_bus_creations(task: CreateTaskView, replies: Seq<ServerReplyView>)
    requires
        task.phase is ListingBuses,
    ensures
        phase_after(task, replies) is ListingBuses ==> bus_creations(steps_for(task, replies))
            == 0,
        phase_after(task, replies) is ListingBuses ==> replies.len() == 0,
    decreases replies.len(),
{
    if replies.len() > 0 {
        let shorter = replies.drop_last();
        lemma_phase_tells_bus_creations(task, shorter);
    }
}

} // verus!
