//! The event handler as a mathematical state machine.
//!
//! [`HandlerView`] is the state; each event has a function from state and
//! event to next state and actions. The executable handler is proved to follow
//! these functions, and what must hold of every run is proved about them.

use vstd::prelude::*;
use crate::actions::ActionView;
use crate::binding_enforcer::force_url;
use crate::bridge::BridgeView;
use crate::bridge::ViiperEventView;
use crate::device::{
    DeviceState, DeviceView, GamepadSnapshot, SdlDeviceInfo, Xbox360Input, kind_controller,
    kind_keyboard, kind_mouse, spec_report, RUMBLE_DURATION_MS,
};
use crate::events::RunnerEvent;
use crate::registry::{
    any_steam_bound, device_pos, has_device, ids, info_pos, is_clone, ordered,
};
use crate::seqs::{
    first_index, lemma_first_index, lemma_first_index_bounds, lemma_first_index_push,
    lemma_first_index_remove,
};
use crate::vid_pid::spec_comparison_pair;

verus! {

/// One entry of the reverse index: the device that a source stands for, and
/// the input last computed for the source.
#[derive(Clone, Copy, Debug)]
pub struct SourceEntry {
    pub source_id: u32,
    pub device_id: u64,
    pub state: DeviceState,
}

/// The contents of a [`crate::handler::SourceProbe`].
pub struct ProbeView {
    pub vendor_id: Option<u16>,
    pub product_id: Option<u16>,
    pub path: Option<Seq<char>>,
    pub steam_handle: u64,
    pub info: SdlDeviceInfo,
}

impl ProbeView {
    /// The pair of ids by which the source is compared with the bridged devices.
    pub open spec fn pair(self) -> (Seq<char>, Seq<char>) {
        spec_comparison_pair(self.vendor_id, self.product_id, self.path)
    }

    /// The platform handle that counts for the source: a source opened
    /// through the joystick API has none.
    pub open spec fn handle(self) -> u64 {
        if self.info.is_gamepad {
            self.steam_handle
        } else {
            0
        }
    }
}

/// The state of the event handler.
pub struct HandlerView {
    /// The registry: the logical devices in the order of their ids.
    pub devices: Seq<DeviceView>,
    /// The reverse index from sources to devices.
    pub index: Seq<SourceEntry>,
    /// The id that the next device gets.
    pub next_device_id: u64,
    pub bridge: BridgeView,
    /// Whether binding enforcement is on.
    pub enforcer_active: bool,
    /// The application that binding enforcement is switched on for.
    pub enforcer_app_id: Option<u32>,
    pub steam_overlay_open: bool,
    pub kbm_emulation_enabled: bool,
    pub continuous_draw_in_config: bool,
    pub cef_debug_port: Option<u16>,
    pub viiper_ready: bool,
    pub viiper_version: Option<Seq<char>>,
}

/// A next state with the actions that lead to it.
pub struct Outcome {
    pub state: HandlerView,
    pub actions: Seq<ActionView>,
}

/// What was read from one gamepad handle during a refresh of the platform handles.
#[derive(Clone, Copy, Debug)]
pub struct HandleReading {
    /// The source that the handle belongs to, if it could be read.
    pub instance_id: Option<u32>,
    /// The platform handle; 0 if the gamepad has none.
    pub steam_handle: u64,
}

impl Outcome {
    /// This outcome followed by the creation of an emulated device.
    pub open spec fn then_emulated(self, kind: Seq<char>) -> Outcome {
        let o = self.state.with_emulated(kind);
        Outcome { state: o.state, actions: self.actions + o.actions }
    }

    /// This outcome followed by making sure that an emulated device is there.
    pub open spec fn then_ensured(self, kind: Seq<char>) -> Outcome {
        let o = self.state.ensured_emulated(kind);
        Outcome { state: o.state, actions: self.actions + o.actions }
    }

    /// This outcome followed by one reading of a refresh.
    pub open spec fn then_refreshed(self, reading: HandleReading) -> Outcome {
        let o = self.state.refreshed_one(reading);
        Outcome { state: o.state, actions: self.actions + o.actions }
    }
}

/// The contents of a [`crate::handler::HandlerEvent`].
pub enum HandlerEventView {
    ViiperEvent(ViiperEventView),
    IgnoreDevice { device_id: u64 },
    ConnectViiperDevice { device_id: u64 },
    DisconnectViiperDevice { device_id: u64 },
    CefDebugReady { port: u16 },
    OverlayStateChanged { open: bool },
    SetKbmEmulationEnabled { enabled: bool },
    ViiperReady { version: Seq<char> },
}

/// The contents of a [`crate::handler::InputEvent`].
pub enum InputEventView {
    Quit,
    PadAdded { which: u32, probe: ProbeView },
    PadRemoved { which: u32, is_joystick: bool },
    SteamHandleUpdated { readings: Option<Seq<HandleReading>> },
    UpdateComplete { which: u32, snapshot: Option<GamepadSnapshot> },
    Handler(HandlerEventView),
    Other,
}

/// What the caller knows of the rest of the program when it hands an event in.
#[derive(Clone, Copy, Debug)]
pub struct Surroundings {
    /// Whether the window is redrawn continuously at this moment.
    pub continuous_redraw: bool,
    /// Whether the process was launched by the platform client.
    pub launched_via_steam: bool,
}

/// What one event of the input loop led to.
pub struct ProcessedView {
    /// Whether the loop is to end.
    pub quit: bool,
    /// Whether a redraw is due once the waiting events are worked off.
    pub redraw: bool,
    pub actions: Seq<ActionView>,
}

/// The sources of the entries, in order.
pub open spec fn source_ids(index: Seq<SourceEntry>) -> Seq<u32> {
    index.map_values(|e: SourceEntry| e.source_id)
}

/// What holds of every device of the registry by itself: it has at most one
/// source, only an emulated device has none, and its stream stands only
/// while it has a virtual device.
pub open spec fn device_ok(d: DeviceView) -> bool {
    &&& d.sdl_ids.len() <= 1
    &&& d.sdl_ids.len() == 0 ==> d.emulated()
    &&& d.viiper_connected ==> d.viiper_device.is_some()
}

impl HandlerView {
    /// Where the entry of source `which` stands in the index; the length of
    /// the index if the source has none.
    pub open spec fn source_pos(self, which: u32) -> int {
        first_index(source_ids(self.index), which)
    }

    /// Whether source `which` is indexed.
    pub open spec fn has_source(self, which: u32) -> bool {
        0 <= self.source_pos(which) < self.index.len()
    }

    /// Whether the source of `d`, if it has one, is indexed to `d`.
    pub open spec fn source_indexed(self, d: DeviceView) -> bool {
        d.sdl_ids.len() == 1 ==> self.has_source(d.sdl_ids[0]) && self.index[self.source_pos(
            d.sdl_ids[0],
        )].device_id == d.id
    }

    /// Whether the device that `e` points to, if it is in the registry, has
    /// the source of `e`.
    pub open spec fn entry_owned(self, e: SourceEntry) -> bool {
        has_device(self.devices, e.device_id) ==> self.devices[device_pos(
            self.devices,
            e.device_id,
        )].sdl_ids == seq![e.source_id]
    }

    /// What holds of every reachable state.
    ///
    /// Ids rise along the registry and are all below the next id, so no id is
    /// used twice. No source is indexed twice, so a source stands for at most
    /// one device. A device is in the registry only while it has a source,
    /// unless it is emulated. Index and registry agree on which source
    /// belongs to which device.
    pub open spec fn wf(self) -> bool {
        &&& ordered(self.devices)
        &&& forall|i: int|
            0 <= i < self.devices.len() ==> (#[trigger] self.devices[i]).id < self.next_device_id
        &&& source_ids(self.index).no_duplicates()
        &&& forall|q: int|
            0 <= q < self.index.len() ==> (#[trigger] self.index[q]).device_id
                < self.next_device_id
        &&& forall|i: int| 0 <= i < self.devices.len() ==> device_ok(#[trigger] self.devices[i])
        &&& forall|i: int|
            0 <= i < self.devices.len() ==> self.source_indexed(#[trigger] self.devices[i])
        &&& forall|q: int| 0 <= q < self.index.len() ==> self.entry_owned(#[trigger] self.index[q])
    }

    /// The request to create a virtual device for `d`.
    pub open spec fn create_action(self, d: DeviceView) -> ActionView {
        ActionView::Bridge(self.bridge.create_request(d.id, d.viiper_type))
    }

    /// What releasing the bindings takes once a device stopped streaming:
    /// where that device was bound to the platform (`was_bound`), no device of
    /// `remaining` still is, and enforcement is on, the releasing URL is opened.
    pub open spec fn release_bindings(self, was_bound: bool, remaining: Seq<DeviceView>) -> Seq<
        ActionView,
    > {
        if was_bound && !any_steam_bound(remaining) && self.enforcer_active {
            seq![ActionView::OpenSteamUrl { url: force_url(0), activating: false }]
        } else {
            Seq::empty()
        }
    }

    /// The state with the registry replaced.
    pub open spec fn with_devices(self, devices: Seq<DeviceView>) -> HandlerView {
        HandlerView { devices, ..self }
    }

    /// The outcome of the removal of source `which`, reported by the joystick
    /// API (`is_joystick`) or by the gamepad API.
    ///
    /// The newest handle of the source is released in every case. If the
    /// source stands for a device of the registry, the device forgets its
    /// first opening through that API. A device without openings gives up
    /// the source, and a device without sources leaves: its outbound queue is
    /// dropped, its index entry and the device itself are erased, and the
    /// bindings are released if it was the last device bound to the platform.
    pub open spec fn removed(self, which: u32, is_joystick: bool) -> Outcome {
        let release = seq![ActionView::ReleaseHandle { source_id: which }];
        let p = self.source_pos(which);
        if !self.has_source(which) {
            Outcome { state: self, actions: release }
        } else if !has_device(self.devices, self.index[p].device_id) {
            Outcome { state: self, actions: release }
        } else {
            let id = self.index[p].device_id;
            let dp = device_pos(self.devices, id);
            let d = self.devices[dp];
            let k = info_pos(d.sdl_device_infos, !is_joystick);
            let infos = if 0 <= k < d.sdl_device_infos.len() {
                d.sdl_device_infos.remove(k)
            } else {
                d.sdl_device_infos
            };
            if infos.len() > 0 {
                Outcome {
                    state: self.with_devices(
                        self.devices.update(dp, DeviceView { sdl_device_infos: infos, ..d }),
                    ),
                    actions: release,
                }
            } else {
                let sources = d.sdl_ids.remove_value(which);
                if sources.len() > 0 {
                    Outcome {
                        state: self.with_devices(
                            self.devices.update(
                                dp,
                                DeviceView { sdl_device_infos: infos, sdl_ids: sources, ..d },
                            ),
                        ),
                        actions: release,
                    }
                } else {
                    let remaining = self.devices.remove(dp);
                    Outcome {
                        state: HandlerView {
                            devices: remaining,
                            index: self.index.remove(p),
                            bridge: self.bridge.without(id),
                            ..self
                        },
                        actions: release + self.release_bindings(d.steam_bound(), remaining),
                    }
                }
            }
        }
    }

    /// Whether an added source is a copy that the platform made of a device
    /// that is bridged already: a gamepad whose ids are those of the virtual
    /// device of some device of the registry.
    pub open spec fn is_copy(self, probe: ProbeView) -> bool {
        probe.info.is_gamepad && is_clone(self.devices, probe.pair())
    }

    /// Whether source `which` stands for a device of the registry that was
    /// opened through the joystick API.
    pub open spec fn tracked_as_joystick(self, which: u32) -> bool {
        &&& self.has_source(which)
        &&& has_device(self.devices, self.index[self.source_pos(which)].device_id)
        &&& self.devices[device_pos(
            self.devices,
            self.index[self.source_pos(which)].device_id,
        )].has_joystick_info()
    }

    /// The device that a new source `which` is given.
    pub open spec fn new_device(self, which: u32, probe: ProbeView) -> DeviceView {
        DeviceView {
            id: self.next_device_id,
            sdl_ids: seq![which],
            steam_handle: probe.handle(),
            viiper_type: kind_controller(),
            viiper_device: None,
            viiper_connected: false,
            sdl_device_infos: seq![probe.info],
        }
    }

    /// The outcome of the addition of source `which`, of which `probe` was
    /// read, given whether the source is the copy of a bridged device.
    ///
    /// A copy of a bridged device is discarded; if the source was tracked
    /// through the joystick API before the copy showed up, that entry is
    /// removed as by a removal reported by the joystick API. Any other source
    /// has its handle stored. A source that is indexed adds an opening to its
    /// device, and gives it its platform handle if the device had none; a
    /// device that gets its handle this way and has no virtual device asks
    /// for one. A source that is not indexed gets a new device with the next
    /// id, which asks for a virtual device at once if it has a platform
    /// handle. When the ids are used up the source is not tracked.
    pub open spec fn added_as(self, which: u32, probe: ProbeView, copy: bool) -> Outcome {
        let store = seq![ActionView::StoreHandle { source_id: which }];
        let p = self.source_pos(which);
        if copy {
            if self.tracked_as_joystick(which) {
                self.removed(which, true)
            } else {
                Outcome { state: self, actions: Seq::empty() }
            }
        } else if self.has_source(which) {
            if has_device(self.devices, self.index[p].device_id) {
                let dp = device_pos(self.devices, self.index[p].device_id);
                let d = self.devices[dp];
                let opened = DeviceView {
                    sdl_device_infos: d.sdl_device_infos.push(probe.info),
                    ..d
                };
                if d.steam_handle == 0 && probe.handle() != 0 {
                    let bound = DeviceView { steam_handle: probe.handle(), ..opened };
                    Outcome {
                        state: self.with_devices(self.devices.update(dp, bound)),
                        actions: if d.viiper_device.is_none() {
                            store.push(self.create_action(bound))
                        } else {
                            store
                        },
                    }
                } else {
                    Outcome {
                        state: self.with_devices(self.devices.update(dp, opened)),
                        actions: store,
                    }
                }
            } else {
                Outcome { state: self, actions: store }
            }
        } else if self.next_device_id == u64::MAX {
            Outcome { state: self, actions: Seq::empty() }
        } else {
            let d = self.new_device(which, probe);
            Outcome {
                state: HandlerView {
                    devices: self.devices.push(d),
                    index: self.index.push(
                        SourceEntry {
                            source_id: which,
                            device_id: d.id,
                            state: DeviceState { input: Xbox360Input::spec_rest() },
                        },
                    ),
                    next_device_id: (self.next_device_id + 1) as u64,
                    ..self
                },
                actions: if probe.handle() != 0 {
                    store.push(self.create_action(d))
                } else {
                    store
                },
            }
        }
    }

    /// The outcome of the addition of source `which`, of which `probe` was
    /// read: that of [`Self::added_as`], the source being a copy exactly
    /// when [`Self::is_copy`] says so.
    pub open spec fn added(self, which: u32, probe: ProbeView) -> Outcome {
        self.added_as(which, probe, self.is_copy(probe))
    }

    /// The handler before any event. With keyboard and mouse emulation on it
    /// starts with an emulated keyboard and an emulated mouse, each of which
    /// asks for its virtual device.
    pub open spec fn initial(
        has_client: bool,
        kbm_emulation_enabled: bool,
        enforcer_active: bool,
        enforcer_app_id: Option<u32>,
        continuous_draw_in_config: bool,
    ) -> Outcome {
        let base = HandlerView {
            devices: Seq::empty(),
            index: Seq::empty(),
            next_device_id: 1,
            bridge: BridgeView::fresh(has_client),
            enforcer_active,
            enforcer_app_id,
            steam_overlay_open: false,
            kbm_emulation_enabled,
            continuous_draw_in_config,
            cef_debug_port: None,
            viiper_ready: false,
            viiper_version: None,
        };
        if kbm_emulation_enabled {
            base.with_emulated(kind_keyboard()).then_emulated(kind_mouse())
        } else {
            Outcome { state: base, actions: Seq::empty() }
        }
    }

    /// The outcome of creating an emulated device of the given type: it gets
    /// the next id and asks for its virtual device. When the ids are used up
    /// nothing happens.
    pub open spec fn with_emulated(self, kind: Seq<char>) -> Outcome {
        if self.next_device_id == u64::MAX {
            Outcome { state: self, actions: Seq::empty() }
        } else {
            let d = DeviceView::blank(self.next_device_id, kind);
            Outcome {
                state: HandlerView {
                    devices: self.devices.push(d),
                    next_device_id: (self.next_device_id + 1) as u64,
                    ..self
                },
                actions: seq![self.create_action(d)],
            }
        }
    }

    /// What switching binding enforcement on takes: the URL for the
    /// application is opened unless enforcement is on or no application is known.
    pub open spec fn force_bindings(self) -> Seq<ActionView> {
        match self.enforcer_app_id {
            Some(app) if !self.enforcer_active => seq![
                ActionView::OpenSteamUrl { url: force_url(app), activating: true },
            ],
            _ => Seq::empty(),
        }
    }

    /// The outcome of one reading of a gamepad handle during a refresh of
    /// the platform handles: the device that the gamepad's source stands for
    /// takes the handle that was read, and asks for a virtual device if it
    /// has none and the handle is there.
    pub open spec fn refreshed_one(self, reading: HandleReading) -> Outcome {
        let idle = Outcome { state: self, actions: Seq::empty() };
        match reading.instance_id {
            None => idle,
            Some(which) => {
                let p = self.source_pos(which);
                if !self.has_source(which) {
                    idle
                } else if !has_device(self.devices, self.index[p].device_id) {
                    idle
                } else {
                    let dp = device_pos(self.devices, self.index[p].device_id);
                    let d = self.devices[dp];
                    let bound = DeviceView { steam_handle: reading.steam_handle, ..d };
                    Outcome {
                        state: self.with_devices(self.devices.update(dp, bound)),
                        actions: if d.viiper_device.is_none() && reading.steam_handle != 0 {
                            seq![self.create_action(bound)]
                        } else {
                            Seq::empty()
                        },
                    }
                }
            },
        }
    }

    /// The outcome of the readings of a refresh, taken in order.
    pub open spec fn refreshed_all(self, readings: Seq<HandleReading>) -> Outcome
        decreases readings.len(),
    {
        if readings.len() == 0 {
            Outcome { state: self, actions: Seq::empty() }
        } else {
            self.refreshed_all(readings.drop_last()).then_refreshed(readings.last())
        }
    }

    /// The outcome of a refresh of the platform handles of one source.
    /// `readings` holds what was read from each gamepad handle of the
    /// source, in the order of the handles; it is `None` where the source has
    /// no handles, and then nothing happens. Otherwise a redraw follows the
    /// readings.
    pub open spec fn refreshed(self, readings: Option<Seq<HandleReading>>) -> Outcome {
        match readings {
            None => Outcome { state: self, actions: Seq::empty() },
            Some(rs) => {
                let o = self.refreshed_all(rs);
                Outcome { state: o.state, actions: o.actions.push(ActionView::Redraw) }
            },
        }
    }

    /// Whether an input report is computed and handed to the bridge when the
    /// refresh cycle of source `which` completes: not while the overlay is
    /// open, only for an indexed source, only if a gamepad handle could be read.
    pub open spec fn streams_update(self, which: u32, snapshot: Option<GamepadSnapshot>) -> bool {
        !self.steam_overlay_open && self.has_source(which) && snapshot.is_some()
    }

    /// The state after the refresh cycle of source `which` completed:
    /// where an update is due, the source's input becomes the report of the
    /// snapshot and the report joins the outbound queue of the source's device.
    pub open spec fn update_completed(
        self,
        which: u32,
        snapshot: Option<GamepadSnapshot>,
    ) -> HandlerView {
        if self.streams_update(which, snapshot) {
            let p = self.source_pos(which);
            let e = self.index[p];
            let input = spec_report(snapshot.unwrap());
            HandlerView {
                index: self.index.update(p, SourceEntry { state: DeviceState { input }, ..e }),
                bridge: self.bridge.enqueued(e.device_id, input),
                ..self
            }
        } else {
            self
        }
    }

    /// The outcome of an event from the bridge.
    ///
    /// - `ServerDisconnected`: the outbound queue of the device is dropped;
    ///   a device of the registry loses its virtual device and its stream,
    ///   and the bindings are released if it was the last one bound.
    /// - `DeviceCreated`: a device of the registry takes the virtual device
    ///   and asks for the stream to it; a redraw follows.
    /// - `DeviceConnected`: a device of the registry that has a virtual
    ///   device is streaming from now on, the bindings are forced if it has
    ///   a platform handle, a redraw follows. For any other device the
    ///   event is stale: the queue that came with the stream is dropped.
    /// - `DeviceRumble`: a device of the registry with a source has the
    ///   intensities, scaled to 16 bits, applied at that source; a redraw follows.
    /// - The two errors leave everything as it is and ask for a redraw.
    ///
    /// Events for devices that are not in the registry change nothing else.
    pub open spec fn remote_event(self, event: ViiperEventView) -> Outcome {
        let idle = Outcome { state: self, actions: Seq::empty() };
        match event {
            ViiperEventView::ServerDisconnected { device_id } => {
                let bridge = self.bridge.without(device_id);
                if has_device(self.devices, device_id) {
                    let dp = device_pos(self.devices, device_id);
                    let d = self.devices[dp];
                    let devices = self.devices.update(
                        dp,
                        DeviceView { viiper_device: None, viiper_connected: false, ..d },
                    );
                    Outcome {
                        state: HandlerView { devices, bridge, ..self },
                        actions: self.release_bindings(d.steam_bound(), devices),
                    }
                } else {
                    Outcome { state: HandlerView { bridge, ..self }, actions: Seq::empty() }
                }
            },
            ViiperEventView::DeviceCreated { device_id, viiper_device } => {
                if has_device(self.devices, device_id) {
                    let dp = device_pos(self.devices, device_id);
                    let d = self.devices[dp];
                    Outcome {
                        state: self.with_devices(
                            self.devices.update(
                                dp,
                                DeviceView { viiper_device: Some(viiper_device), ..d },
                            ),
                        ),
                        actions: seq![
                            ActionView::Bridge(
                                self.bridge.connect_request(device_id, Some(viiper_device)),
                            ),
                            ActionView::Redraw,
                        ],
                    }
                } else {
                    idle
                }
            },
            ViiperEventView::DeviceConnected { device_id } => {
                let dp = device_pos(self.devices, device_id);
                if has_device(self.devices, device_id) && self.devices[dp].viiper_device.is_some() {
                    let d = self.devices[dp];
                    Outcome {
                        state: self.with_devices(
                            self.devices.update(dp, DeviceView { viiper_connected: true, ..d }),
                        ),
                        actions: if d.steam_handle != 0 {
                            self.force_bindings().push(ActionView::Redraw)
                        } else {
                            seq![ActionView::Redraw]
                        },
                    }
                } else {
                    Outcome {
                        state: HandlerView { bridge: self.bridge.without(device_id), ..self },
                        actions: Seq::empty(),
                    }
                }
            },
            ViiperEventView::DeviceRumble { device_id, l, r } => {
                let dp = device_pos(self.devices, device_id);
                if has_device(self.devices, device_id) && self.devices[dp].sdl_ids.len() > 0 {
                    Outcome {
                        state: self,
                        actions: seq![
                            ActionView::Rumble {
                                source_id: self.devices[dp].sdl_ids[0],
                                low_frequency: (l * 257) as u16,
                                high_frequency: (r * 257) as u16,
                                duration_ms: RUMBLE_DURATION_MS,
                            },
                            ActionView::Redraw,
                        ],
                    }
                } else {
                    idle
                }
            },
            ViiperEventView::ErrorCreateDevice { device_id } => Outcome {
                state: self,
                actions: seq![ActionView::Redraw],
            },
            ViiperEventView::ErrorConnectDevice { device_id } => Outcome {
                state: self,
                actions: seq![ActionView::Redraw],
            },
        }
    }

    /// Whether the device `id` may be given a virtual device on the user's
    /// request: it is in the registry, has neither virtual device nor
    /// stream, and has a platform handle.
    pub open spec fn may_connect(self, id: u64) -> bool {
        let d = self.devices[device_pos(self.devices, id)];
        has_device(self.devices, id) && !d.viiper_connected && d.viiper_device.is_none()
            && d.steam_handle != 0
    }

    /// The actions of the user's request to bridge the device `id`: the
    /// request for its virtual device and a redraw, where it may be bridged.
    pub open spec fn connect_requested(self, id: u64) -> Seq<ActionView> {
        if self.may_connect(id) {
            seq![
                self.create_action(self.devices[device_pos(self.devices, id)]),
                ActionView::Redraw,
            ]
        } else {
            Seq::empty()
        }
    }

    /// The state after the user's request to stop bridging the device `id`:
    /// the outbound queue of a streaming device is dropped.
    pub open spec fn disconnect_requested(self, id: u64) -> HandlerView {
        let d = self.devices[device_pos(self.devices, id)];
        if has_device(self.devices, id) && d.viiper_connected && d.viiper_device.is_some() {
            HandlerView { bridge: self.bridge.without(id), ..self }
        } else {
            self
        }
    }

    /// The state after the user's request to ignore the device `id`: the
    /// device leaves the registry. Its sources stay indexed, so that they are
    /// not taken for new devices.
    pub open spec fn ignored(self, id: u64) -> HandlerView {
        if has_device(self.devices, id) {
            self.with_devices(self.devices.remove(device_pos(self.devices, id)))
        } else {
            self
        }
    }

    /// The state in which the first `n` devices of the registry were looked
    /// through, from the last of them to the first, and every emulated one
    /// among them left with its outbound queue.
    pub open spec fn purged(self, n: nat) -> HandlerView
        decreases n,
    {
        if n == 0 || n > self.devices.len() {
            self
        } else {
            let d = self.devices[n - 1];
            let next = if d.emulated() {
                HandlerView {
                    devices: self.devices.remove(n - 1),
                    bridge: self.bridge.without(d.id),
                    ..self
                }
            } else {
                self
            };
            next.purged((n - 1) as nat)
        }
    }

    /// Whether the registry holds a device of the given type.
    pub open spec fn has_kind(self, kind: Seq<char>) -> bool {
        exists|i: int| 0 <= i < self.devices.len() && (#[trigger] self.devices[i]).viiper_type == kind
    }

    /// The outcome of making sure that an emulated device of the given type is there.
    pub open spec fn ensured_emulated(self, kind: Seq<char>) -> Outcome {
        if self.has_kind(kind) {
            Outcome { state: self, actions: Seq::empty() }
        } else {
            self.with_emulated(kind)
        }
    }

    /// The outcome of switching keyboard and mouse emulation.
    ///
    /// Nothing happens if the switch stands as asked. Otherwise the window
    /// is told to grab or free the cursor. Switching on shows the notice and
    /// makes sure that an emulated keyboard and an emulated mouse are there;
    /// switching off removes every emulated device with its outbound queue.
    pub open spec fn kbm_switched(self, enabled: bool) -> Outcome {
        if self.kbm_emulation_enabled == enabled {
            Outcome { state: self, actions: Seq::empty() }
        } else {
            let base = HandlerView { kbm_emulation_enabled: enabled, ..self };
            let grab = ActionView::Window(RunnerEvent::SetKbmCursorGrab(enabled));
            if enabled {
                let o = base.ensured_emulated(kind_keyboard()).then_ensured(kind_mouse());
                Outcome { state: o.state, actions: seq![grab, ActionView::ShowKbmNotice] + o.actions }
            } else {
                Outcome { state: base.purged(base.devices.len()), actions: seq![grab] }
            }
        }
    }

    /// Whether a device asks for its virtual device when the server becomes
    /// ready: it has none, and it is emulated or has a platform handle.
    pub open spec fn wants_remote(d: DeviceView) -> bool {
        d.viiper_device.is_none() && (d.emulated() || d.steam_handle != 0)
    }

    /// The requests for virtual devices of the first `n` devices of the
    /// registry, in order, when the server becomes ready.
    pub open spec fn ready_requests(self, n: nat) -> Seq<ActionView>
        decreases n,
    {
        if n == 0 || n > self.devices.len() {
            Seq::empty()
        } else {
            let earlier = self.ready_requests((n - 1) as nat);
            if Self::wants_remote(self.devices[n - 1]) {
                earlier.push(self.create_action(self.devices[n - 1]))
            } else {
                earlier
            }
        }
    }

    /// The outcome of the server becoming ready with the given version: the
    /// version is kept, a redraw is asked for, and every device that wants a
    /// virtual device asks for it, in the order of the registry.
    pub open spec fn ready(self, version: Seq<char>) -> Outcome {
        Outcome {
            state: HandlerView { viiper_ready: true, viiper_version: Some(version), ..self },
            actions: seq![ActionView::Redraw] + self.ready_requests(self.devices.len()),
        }
    }

    /// The outcome of the debug port of the platform client becoming known:
    /// the port is kept, a redraw is asked for, and unless the window is
    /// redrawn continuously the overlay notifier is installed, five seconds
    /// later if the process was not launched by the platform client.
    pub open spec fn cef_ready(
        self,
        port: u16,
        continuous_redraw: bool,
        launched_via_steam: bool,
    ) -> Outcome {
        Outcome {
            state: HandlerView { cef_debug_port: Some(port), ..self },
            actions: if continuous_redraw {
                seq![ActionView::Redraw]
            } else {
                seq![
                    ActionView::Redraw,
                    ActionView::InjectOverlayNotifier {
                        delay_secs: if launched_via_steam {
                            0
                        } else {
                            5
                        },
                    },
                ]
            },
        }
    }

    /// The outcome of the overlay opening or closing. With continuous
    /// redraw configured the event is ignored. Otherwise the state of the
    /// overlay is kept, continuous redraw follows it (at once when it opens,
    /// a second after it closes), and the window is told.
    pub open spec fn overlay_changed(self, open: bool) -> Outcome {
        if self.continuous_draw_in_config {
            Outcome { state: self, actions: Seq::empty() }
        } else {
            Outcome {
                state: HandlerView { steam_overlay_open: open, ..self },
                actions: seq![
                    ActionView::SetContinuousRedraw {
                        on: open,
                        delay_ms: if open {
                            0
                        } else {
                            1000
                        },
                    },
                    ActionView::Window(RunnerEvent::OverlayStateChanged(open)),
                ],
            }
        }
    }

    /// The outcome of a request from another part of the program: that of
    /// the function that the request names.
    pub open spec fn requested(self, event: HandlerEventView, around: Surroundings) -> Outcome {
        match event {
            HandlerEventView::ViiperEvent(e) => self.remote_event(e),
            HandlerEventView::IgnoreDevice { device_id } => Outcome {
                state: self.ignored(device_id),
                actions: Seq::empty(),
            },
            HandlerEventView::ConnectViiperDevice { device_id } => Outcome {
                state: self,
                actions: self.connect_requested(device_id),
            },
            HandlerEventView::DisconnectViiperDevice { device_id } => Outcome {
                state: self.disconnect_requested(device_id),
                actions: Seq::empty(),
            },
            HandlerEventView::CefDebugReady { port } => self.cef_ready(
                port,
                around.continuous_redraw,
                around.launched_via_steam,
            ),
            HandlerEventView::OverlayStateChanged { open } => self.overlay_changed(open),
            HandlerEventView::SetKbmEmulationEnabled { enabled } => self.kbm_switched(enabled),
            HandlerEventView::ViiperReady { version } => self.ready(version),
        }
    }

    /// The outcome of one event of the input loop: that of the function that
    /// the event belongs to. Only `Quit` ends the loop; additions, removals
    /// and refreshes of the platform handles make a redraw due.
    pub open spec fn processed(self, event: InputEventView, around: Surroundings) -> (
        HandlerView,
        ProcessedView,
    ) {
        match event {
            InputEventView::Quit => (
                self,
                ProcessedView { quit: true, redraw: false, actions: Seq::empty() },
            ),
            InputEventView::PadAdded { which, probe } => (
                self.added(which, probe).state,
                ProcessedView {
                    quit: false,
                    redraw: true,
                    actions: self.added(which, probe).actions,
                },
            ),
            InputEventView::PadRemoved { which, is_joystick } => (
                self.removed(which, is_joystick).state,
                ProcessedView {
                    quit: false,
                    redraw: true,
                    actions: self.removed(which, is_joystick).actions,
                },
            ),
            InputEventView::SteamHandleUpdated { readings } => (
                self.refreshed(readings).state,
                ProcessedView {
                    quit: false,
                    redraw: true,
                    actions: self.refreshed(readings).actions,
                },
            ),
            InputEventView::UpdateComplete { which, snapshot } => (
                self.update_completed(which, snapshot),
                ProcessedView { quit: false, redraw: false, actions: Seq::empty() },
            ),
            InputEventView::Handler(e) => (
                self.requested(e, around).state,
                ProcessedView {
                    quit: false,
                    redraw: false,
                    actions: self.requested(e, around).actions,
                },
            ),
            InputEventView::Other => (
                self,
                ProcessedView { quit: false, redraw: false, actions: Seq::empty() },
            ),
        }
    }

    /// The state after a URL of the platform client was opened or failed to open.
    pub open spec fn url_opened(self, activating: bool, opened: bool) -> HandlerView {
        HandlerView {
            enforcer_active: if opened {
                activating
            } else {
                self.enforcer_active
            },
            ..self
        }
    }
}

/// A registry in which one device was replaced by one with the same id has
/// the same ids at the same places.
pub proof fn lemma_update_keeps_ids(devices: Seq<DeviceView>, i: int, d: DeviceView)
    requires
        0 <= i < devices.len(),
        d.id == devices[i].id,
    ensures
        ids(devices.update(i, d)) == ids(devices),
        ordered(devices) ==> ordered(devices.update(i, d)),
        forall|id: u64| device_pos(devices.update(i, d), id) == device_pos(devices, id),
        forall|id: u64| has_device(devices.update(i, d), id) == has_device(devices, id),
{
    assert(ids(devices.update(i, d)) =~= ids(devices));
    let u = devices.update(i, d);
    if ordered(devices) {
        assert forall|a: int, b: int| 0 <= a < b < u.len() implies u[a].id < u[b].id by {
            assert(devices[a].id < devices[b].id);
        }
    }
}

/// What remains of a well-formed state when one device of the registry is
/// replaced by a device with the same id and the same source.
pub proof fn lemma_replace_wf(h: HandlerView, i: int, d: DeviceView)
    requires
        h.wf(),
        0 <= i < h.devices.len(),
        d.id == h.devices[i].id,
        d.sdl_ids == h.devices[i].sdl_ids,
        device_ok(d),
    ensures
        h.with_devices(h.devices.update(i, d)).wf(),
{
    let g = h.with_devices(h.devices.update(i, d));
    lemma_update_keeps_ids(h.devices, i, d);
    assert forall|a: int| 0 <= a < g.devices.len() implies (#[trigger] g.devices[a]).id
        < g.next_device_id by {
        assert(h.devices[a].id < h.next_device_id);
    }
    assert forall|a: int| 0 <= a < g.devices.len() implies device_ok(#[trigger] g.devices[a]) by {
        if a != i {
            assert(device_ok(h.devices[a]));
        }
    }
    assert forall|a: int| 0 <= a < g.devices.len() implies g.source_indexed(
        #[trigger] g.devices[a],
    ) by {
        assert(h.source_indexed(h.devices[a]));
    }
    assert forall|q: int| 0 <= q < g.index.len() implies g.entry_owned(#[trigger] g.index[q]) by {
        let e = g.index[q];
        assert(h.entry_owned(h.index[q]));
        if has_device(g.devices, e.device_id) {
            let a = device_pos(h.devices, e.device_id);
            lemma_first_index_bounds(ids(h.devices), e.device_id);
            if a == i {
                assert(ids(h.devices)[a] == e.device_id);
            }
        }
    }
}

/// A registry from which one device was taken out is still ordered and no
/// longer holds that device.
pub proof fn lemma_remove_device(devices: Seq<DeviceView>, i: int)
    requires
        ordered(devices),
        0 <= i < devices.len(),
    ensures
        ordered(devices.remove(i)),
        !has_device(devices.remove(i), devices[i].id),
{
    let r = devices.remove(i);
    assert(ids(r) =~= ids(devices).remove(i));
    assert forall|a: int, b: int| 0 <= a < b < r.len() implies r[a].id < r[b].id by {
        let a0 = if a < i {
            a
        } else {
            a + 1
        };
        let b0 = if b < i {
            b
        } else {
            b + 1
        };
        assert(devices[a0].id < devices[b0].id);
    }
    assert forall|k: int| 0 <= k < r.len() implies ids(r)[k] != devices[i].id by {
        let k0 = if k < i {
            k
        } else {
            k + 1
        };
        assert(r[k] == devices[k0]);
        if k0 < i {
            assert(devices[k0].id < devices[i].id);
        } else {
            assert(devices[i].id < devices[k0].id);
        }
    }
    lemma_first_index(ids(r), devices[i].id, r.len() as int);
}

/// Taking one device out of a registry leaves every other device in it, with
/// the same contents.
pub proof fn lemma_remove_other_device(devices: Seq<DeviceView>, i: int, id: u64)
    requires
        0 <= i < devices.len(),
        id != devices[i].id,
    ensures
        has_device(devices.remove(i), id) == has_device(devices, id),
        has_device(devices, id) ==> devices.remove(i)[device_pos(devices.remove(i), id)]
            == devices[device_pos(devices, id)],
{
    let r = devices.remove(i);
    assert(ids(r) =~= ids(devices).remove(i));
    lemma_first_index_bounds(ids(devices), id);
    let q = device_pos(devices, id);
    if q == i {
        assert(ids(devices)[q] == id);
    }
    lemma_first_index_remove(ids(devices), i, id);
}

/// A removal leads from a well-formed state to a well-formed state.
pub proof fn lemma_removed_wf(h: HandlerView, which: u32, is_joystick: bool)
    requires
        h.wf(),
    ensures
        h.removed(which, is_joystick).state.wf(),
{
    let g = h.removed(which, is_joystick).state;
    let p = h.source_pos(which);
    lemma_first_index_bounds(source_ids(h.index), which);
    if h.has_source(which) && has_device(h.devices, h.index[p].device_id) {
        let e = h.index[p];
        assert(source_ids(h.index)[p] == which);
        assert(e.source_id == which);
        let id = e.device_id;
        let dp = device_pos(h.devices, id);
        lemma_first_index_bounds(ids(h.devices), id);
        assert(ids(h.devices)[dp] == id);
        let d = h.devices[dp];
        assert(h.entry_owned(e));
        assert(d.sdl_ids == seq![which]);
        assert(device_ok(d));
        let k = info_pos(d.sdl_device_infos, !is_joystick);
        let infos = if 0 <= k < d.sdl_device_infos.len() {
            d.sdl_device_infos.remove(k)
        } else {
            d.sdl_device_infos
        };
        if infos.len() > 0 {
            lemma_replace_wf(h, dp, DeviceView { sdl_device_infos: infos, ..d });
        } else {
            assert(d.sdl_ids.remove_value(which) =~= Seq::<u32>::empty()) by {
                d.sdl_ids.index_of_first_ensures(which);
                assert(d.sdl_ids[0] == which);
            }
            lemma_remove_device(h.devices, dp);
            assert(g.devices == h.devices.remove(dp));
            assert(g.index == h.index.remove(p));
            assert(source_ids(g.index) =~= source_ids(h.index).remove(p));
            assert(source_ids(g.index).no_duplicates()) by {
                let s = source_ids(h.index);
                let t = source_ids(g.index);
                assert forall|a: int, b: int| 0 <= a < t.len() && 0 <= b < t.len() && a != b implies t[a] != t[b] by {
                    let a0 = if a < p {
                        a
                    } else {
                        a + 1
                    };
                    let b0 = if b < p {
                        b
                    } else {
                        b + 1
                    };
                    assert(t[a] == s[a0]);
                    assert(t[b] == s[b0]);
                }
            }
            assert forall|a: int| 0 <= a < g.devices.len() implies (#[trigger] g.devices[a]).id
                < g.next_device_id && device_ok(g.devices[a]) && g.source_indexed(g.devices[a]) by {
                let a0 = if a < dp {
                    a
                } else {
                    a + 1
                };
                let x = h.devices[a0];
                assert(g.devices[a] == x);
                assert(x.id < h.next_device_id);
                assert(device_ok(x));
                assert(h.source_indexed(x));
                if x.sdl_ids.len() == 1 {
                    let s = x.sdl_ids[0];
                    let q = h.source_pos(s);
                    assert(h.index[q].device_id == x.id);
                    if a0 < dp {
                        assert(x.id < d.id);
                    } else {
                        assert(d.id < x.id);
                    }
                    assert(q != p);
                    lemma_first_index_remove(source_ids(h.index), p, s);
                    let q1 = g.source_pos(s);
                    assert(g.index[q1] == h.index[q]);
                }
            }
            assert forall|q: int| 0 <= q < g.index.len() implies (#[trigger] g.index[q]).device_id
                < g.next_device_id && g.entry_owned(g.index[q]) by {
                let q0 = if q < p {
                    q
                } else {
                    q + 1
                };
                let x = h.index[q0];
                assert(g.index[q] == x);
                assert(x.device_id < h.next_device_id);
                assert(h.entry_owned(x));
                if x.device_id != d.id {
                    lemma_remove_other_device(h.devices, dp, x.device_id);
                }
            }
        }
    }
}

/// An addition leads from a well-formed state to a well-formed state,
/// whether or not the source is taken for a copy.
pub proof fn lemma_added_as_wf(h: HandlerView, which: u32, probe: ProbeView, copy: bool)
    requires
        h.wf(),
    ensures
        h.added_as(which, probe, copy).state.wf(),
{
    let g = h.added_as(which, probe, copy).state;
    let p = h.source_pos(which);
    lemma_first_index_bounds(source_ids(h.index), which);
    if copy {
        if h.tracked_as_joystick(which) {
            lemma_removed_wf(h, which, true);
        }
    } else if h.has_source(which) {
        if has_device(h.devices, h.index[p].device_id) {
            let dp = device_pos(h.devices, h.index[p].device_id);
            lemma_first_index_bounds(ids(h.devices), h.index[p].device_id);
            let d = h.devices[dp];
            assert(device_ok(d));
            let opened = DeviceView { sdl_device_infos: d.sdl_device_infos.push(probe.info), ..d };
            if d.steam_handle == 0 && probe.handle() != 0 {
                lemma_replace_wf(h, dp, DeviceView { steam_handle: probe.handle(), ..opened });
            } else {
                lemma_replace_wf(h, dp, opened);
            }
        }
    } else if h.next_device_id == u64::MAX {
    } else {
        let d = h.new_device(which, probe);
        let n = h.devices.len() as int;
        let m = h.index.len() as int;
        assert(ids(g.devices) =~= ids(h.devices).push(d.id));
        assert(source_ids(g.index) =~= source_ids(h.index).push(which));
        assert forall|a: int, b: int| 0 <= a < b < g.devices.len() implies g.devices[a].id
            < g.devices[b].id by {
            if b < n {
                assert(h.devices[a].id < h.devices[b].id);
            } else {
                assert(h.devices[a].id < h.next_device_id);
            }
        }
        assert(source_ids(g.index).no_duplicates()) by {
            let s = source_ids(h.index);
            let t = source_ids(g.index);
            assert forall|a: int, b: int| 0 <= a < t.len() && 0 <= b < t.len() && a != b implies t[a] != t[b] by {
                if a < m && b < m {
                    assert(t[a] == s[a] && t[b] == s[b]);
                } else if a < m {
                    assert(t[a] == s[a]);
                } else {
                    assert(t[b] == s[b]);
                }
            }
        }
        assert forall|a: int| 0 <= a < g.devices.len() implies (#[trigger] g.devices[a]).id
            < g.next_device_id && device_ok(g.devices[a]) && g.source_indexed(g.devices[a]) by {
            if a < n {
                let x = h.devices[a];
                assert(g.devices[a] == x);
                assert(x.id < h.next_device_id);
                assert(device_ok(x));
                assert(h.source_indexed(x));
                if x.sdl_ids.len() == 1 {
                    lemma_first_index_push(source_ids(h.index), which, x.sdl_ids[0]);
                    assert(g.index[h.source_pos(x.sdl_ids[0])] == h.index[h.source_pos(
                        x.sdl_ids[0],
                    )]);
                }
            } else {
                lemma_first_index_push(source_ids(h.index), which, which);
            }
        }
        assert forall|q: int| 0 <= q < g.index.len() implies (#[trigger] g.index[q]).device_id
            < g.next_device_id && g.entry_owned(g.index[q]) by {
            let e = g.index[q];
            lemma_first_index_push(ids(h.devices), d.id, e.device_id);
            lemma_first_index_bounds(ids(h.devices), e.device_id);
            if q < m {
                assert(e == h.index[q]);
                assert(e.device_id < h.next_device_id);
                assert(h.entry_owned(e));
                if has_device(h.devices, e.device_id) {
                    assert(g.devices[device_pos(h.devices, e.device_id)] == h.devices[device_pos(
                        h.devices,
                        e.device_id,
                    )]);
                }
            } else {
                assert forall|k: int| 0 <= k < n implies ids(h.devices)[k] != d.id by {
                    assert(h.devices[k].id < h.next_device_id);
                }
                lemma_first_index(ids(h.devices), d.id, n);
            }
        }
    }
}

/// An addition leads from a well-formed state to a well-formed state.
pub proof fn lemma_added_wf(h: HandlerView, which: u32, probe: ProbeView)
    requires
        h.wf(),
    ensures
        h.added(which, probe).state.wf(),
{
    lemma_added_as_wf(h, which, probe, h.is_copy(probe));
}

/// A state with the same registry, index and next id as a well-formed state
/// is well-formed.
pub proof fn lemma_same_tables_wf(h: HandlerView, g: HandlerView)
    requires
        h.wf(),
        g.devices == h.devices,
        g.index == h.index,
        g.next_device_id == h.next_device_id,
    ensures
        g.wf(),
{
    assert forall|i: int| 0 <= i < g.devices.len() implies g.source_indexed(
        #[trigger] g.devices[i],
    ) by {
        assert(h.source_indexed(h.devices[i]));
    }
    assert forall|q: int| 0 <= q < g.index.len() implies g.entry_owned(#[trigger] g.index[q]) by {
        assert(h.entry_owned(h.index[q]));
    }
}

/// Taking a device out of the registry leaves a well-formed state well-formed.
pub proof fn lemma_drop_device_wf(h: HandlerView, dp: int)
    requires
        h.wf(),
        0 <= dp < h.devices.len(),
    ensures
        h.with_devices(h.devices.remove(dp)).wf(),
{
    let g = h.with_devices(h.devices.remove(dp));
    let d = h.devices[dp];
    lemma_remove_device(h.devices, dp);
    assert forall|a: int| 0 <= a < g.devices.len() implies (#[trigger] g.devices[a]).id
        < g.next_device_id && device_ok(g.devices[a]) && g.source_indexed(g.devices[a]) by {
        let a0 = if a < dp {
            a
        } else {
            a + 1
        };
        let x = h.devices[a0];
        assert(g.devices[a] == x);
        assert(x.id < h.next_device_id);
        assert(device_ok(x));
        assert(h.source_indexed(x));
    }
    assert forall|q: int| 0 <= q < g.index.len() implies g.entry_owned(#[trigger] g.index[q]) by {
        let x = h.index[q];
        assert(h.entry_owned(x));
        if x.device_id != d.id {
            lemma_remove_other_device(h.devices, dp, x.device_id);
        }
    }
}

/// Creating an emulated device leaves a well-formed state well-formed.
pub proof fn lemma_with_emulated_wf(h: HandlerView, kind: Seq<char>)
    requires
        h.wf(),
        kind == kind_keyboard() || kind == kind_mouse(),
    ensures
        h.with_emulated(kind).state.wf(),
{
    if h.next_device_id != u64::MAX {
        let g = h.with_emulated(kind).state;
        let d = DeviceView::blank(h.next_device_id, kind);
        let n = h.devices.len() as int;
        assert(ids(g.devices) =~= ids(h.devices).push(d.id));
        assert forall|a: int, b: int| 0 <= a < b < g.devices.len() implies g.devices[a].id
            < g.devices[b].id by {
            if b < n {
                assert(h.devices[a].id < h.devices[b].id);
            } else {
                assert(h.devices[a].id < h.next_device_id);
            }
        }
        assert forall|a: int| 0 <= a < g.devices.len() implies (#[trigger] g.devices[a]).id
            < g.next_device_id && device_ok(g.devices[a]) && g.source_indexed(g.devices[a]) by {
            if a < n {
                let x = h.devices[a];
                assert(g.devices[a] == x);
                assert(x.id < h.next_device_id);
                assert(device_ok(x));
                assert(h.source_indexed(x));
            }
        }
        assert forall|q: int| 0 <= q < g.index.len() implies (#[trigger] g.index[q]).device_id
            < g.next_device_id && g.entry_owned(g.index[q]) by {
            let e = g.index[q];
            assert(e == h.index[q]);
            assert(e.device_id < h.next_device_id);
            assert(h.entry_owned(e));
            lemma_first_index_push(ids(h.devices), d.id, e.device_id);
            lemma_first_index_bounds(ids(h.devices), e.device_id);
            if has_device(h.devices, e.device_id) {
                assert(g.devices[device_pos(h.devices, e.device_id)] == h.devices[device_pos(
                    h.devices,
                    e.device_id,
                )]);
            }
        }
    }
}

/// The handler starts in a well-formed state.
pub proof fn lemma_initial_wf(
    has_client: bool,
    kbm_emulation_enabled: bool,
    enforcer_active: bool,
    enforcer_app_id: Option<u32>,
    continuous_draw_in_config: bool,
)
    ensures
        HandlerView::initial(
            has_client,
            kbm_emulation_enabled,
            enforcer_active,
            enforcer_app_id,
            continuous_draw_in_config,
        ).state.wf(),
{
    let base = HandlerView {
        devices: Seq::empty(),
        index: Seq::empty(),
        next_device_id: 1,
        bridge: BridgeView::fresh(has_client),
        enforcer_active,
        enforcer_app_id,
        steam_overlay_open: false,
        kbm_emulation_enabled,
        continuous_draw_in_config,
        cef_debug_port: None,
        viiper_ready: false,
        viiper_version: None,
    };
    assert(base.wf());
    if kbm_emulation_enabled {
        lemma_with_emulated_wf(base, kind_keyboard());
        lemma_with_emulated_wf(base.with_emulated(kind_keyboard()).state, kind_mouse());
    }
}

/// One reading of a refresh leaves a well-formed state well-formed.
pub proof fn lemma_refreshed_one_wf(h: HandlerView, reading: HandleReading)
    requires
        h.wf(),
    ensures
        h.refreshed_one(reading).state.wf(),
{
    match reading.instance_id {
        None => {},
        Some(which) => {
            let p = h.source_pos(which);
            if h.has_source(which) && has_device(h.devices, h.index[p].device_id) {
                let dp = device_pos(h.devices, h.index[p].device_id);
                lemma_first_index_bounds(ids(h.devices), h.index[p].device_id);
                let d = h.devices[dp];
                assert(device_ok(d));
                lemma_replace_wf(h, dp, DeviceView { steam_handle: reading.steam_handle, ..d });
            }
        },
    }
}

/// A refresh leaves a well-formed state well-formed.
pub proof fn lemma_refreshed_all_wf(h: HandlerView, readings: Seq<HandleReading>)
    requires
        h.wf(),
    ensures
        h.refreshed_all(readings).state.wf(),
    decreases readings.len(),
{
    if readings.len() > 0 {
        lemma_refreshed_all_wf(h, readings.drop_last());
        lemma_refreshed_one_wf(h.refreshed_all(readings.drop_last()).state, readings.last());
    }
}

/// A completed update leaves a well-formed state well-formed.
pub proof fn lemma_update_completed_wf(h: HandlerView, which: u32, snapshot: Option<GamepadSnapshot>)
    requires
        h.wf(),
    ensures
        h.update_completed(which, snapshot).wf(),
{
    let g = h.update_completed(which, snapshot);
    if h.streams_update(which, snapshot) {
        let p = h.source_pos(which);
        assert(source_ids(g.index) =~= source_ids(h.index));
        assert forall|i: int| 0 <= i < g.devices.len() implies g.source_indexed(
            #[trigger] g.devices[i],
        ) by {
            assert(h.source_indexed(h.devices[i]));
        }
        assert forall|q: int| 0 <= q < g.index.len() implies (#[trigger] g.index[q]).device_id
            < g.next_device_id && g.entry_owned(g.index[q]) by {
            assert(h.index[q].device_id < h.next_device_id);
            assert(h.entry_owned(h.index[q]));
        }
    }
}

/// An event from the bridge leaves a well-formed state well-formed.
pub proof fn lemma_remote_event_wf(h: HandlerView, event: ViiperEventView)
    requires
        h.wf(),
    ensures
        h.remote_event(event).state.wf(),
{
    let g = h.remote_event(event).state;
    match event {
        ViiperEventView::ServerDisconnected { device_id } => {
            if has_device(h.devices, device_id) {
                let dp = device_pos(h.devices, device_id);
                lemma_first_index_bounds(ids(h.devices), device_id);
                let d = h.devices[dp];
                assert(device_ok(d));
                let d1 = DeviceView { viiper_device: None, viiper_connected: false, ..d };
                lemma_replace_wf(h, dp, d1);
                lemma_same_tables_wf(h.with_devices(h.devices.update(dp, d1)), g);
            } else {
                lemma_same_tables_wf(h, g);
            }
        },
        ViiperEventView::DeviceCreated { device_id, viiper_device } => {
            if has_device(h.devices, device_id) {
                let dp = device_pos(h.devices, device_id);
                lemma_first_index_bounds(ids(h.devices), device_id);
                let d = h.devices[dp];
                assert(device_ok(d));
                lemma_replace_wf(h, dp, DeviceView { viiper_device: Some(viiper_device), ..d });
            }
        },
        ViiperEventView::DeviceConnected { device_id } => {
            let dp = device_pos(h.devices, device_id);
            if has_device(h.devices, device_id) && h.devices[dp].viiper_device.is_some() {
                lemma_first_index_bounds(ids(h.devices), device_id);
                let d = h.devices[dp];
                assert(device_ok(d));
                lemma_replace_wf(h, dp, DeviceView { viiper_connected: true, ..d });
            } else {
                lemma_same_tables_wf(h, g);
            }
        },
        _ => {},
    }
}

/// Ignoring a device leaves a well-formed state well-formed.
pub proof fn lemma_ignored_wf(h: HandlerView, id: u64)
    requires
        h.wf(),
    ensures
        h.ignored(id).wf(),
{
    if has_device(h.devices, id) {
        lemma_drop_device_wf(h, device_pos(h.devices, id));
    }
}

/// Removing the emulated devices leaves a well-formed state well-formed.
pub proof fn lemma_purged_wf(h: HandlerView, n: nat)
    requires
        h.wf(),
    ensures
        h.purged(n).wf(),
    decreases n,
{
    if n == 0 || n > h.devices.len() {
    } else {
        let d = h.devices[n - 1];
        if d.emulated() {
            lemma_drop_device_wf(h, n - 1);
            let mid = h.with_devices(h.devices.remove(n - 1));
            let next = HandlerView {
                devices: h.devices.remove(n - 1),
                bridge: h.bridge.without(d.id),
                ..h
            };
            lemma_same_tables_wf(mid, next);
            lemma_purged_wf(next, (n - 1) as nat);
        } else {
            lemma_purged_wf(h, (n - 1) as nat);
        }
    }
}

/// Switching keyboard and mouse emulation leaves a well-formed state well-formed.
pub proof fn lemma_kbm_switched_wf(h: HandlerView, enabled: bool)
    requires
        h.wf(),
    ensures
        h.kbm_switched(enabled).state.wf(),
{
    if h.kbm_emulation_enabled != enabled {
        let base = HandlerView { kbm_emulation_enabled: enabled, ..h };
        lemma_same_tables_wf(h, base);
        if enabled {
            lemma_with_emulated_wf(base, kind_keyboard());
            let mid = base.ensured_emulated(kind_keyboard()).state;
            lemma_with_emulated_wf(mid, kind_mouse());
        } else {
            lemma_purged_wf(base, base.devices.len());
        }
    }
}

} // verus!
