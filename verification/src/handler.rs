//! The event handler: it tracks the input sources, correlates them into
//! logical devices and drives the bridge.
//!
//! Every function takes one event with what the caller read for it, changes
//! the state as [`crate::model::HandlerView`] says, and returns the actions
//! that the caller is to carry out, in order.

use vstd::prelude::*;
use crate::actions::{Action, ActionView, action_views, no_actions, push_action};
use crate::binding_enforcer::BindingEnforcer;
use crate::bridge::{
    BridgeRequest, BridgeView, CreateTask, ServerCall, ServerReply, StreamPoll, TaskStep,
    ViiperBridge, ViiperEvent, ViiperEventView, spec_continue, wire_frame,
};
use crate::device::{
    Device, DeviceState, GamepadSnapshot, SdlDeviceInfo, kind_keyboard, kind_mouse, spec_report,
    RUMBLE_DURATION_MS,
};
use crate::events::RunnerEvent;
use crate::model::{
    HandleReading, HandlerEventView, HandlerView, InputEventView, ProbeView, SourceEntry,
    Surroundings, lemma_added_as_wf,
    lemma_ignored_wf, lemma_initial_wf, lemma_kbm_switched_wf, lemma_refreshed_all_wf,
    lemma_remote_event_wf, lemma_removed_wf, lemma_same_tables_wf, lemma_update_completed_wf,
    lemma_with_emulated_wf, source_ids,
};
use crate::registry::Registry;
use crate::seqs::lemma_first_index;
use crate::text::same_text;
use crate::vid_pid::comparison_pair;

verus! {

/// What was read from a source that was just opened.
#[derive(Clone, Debug)]
pub struct SourceProbe {
    /// The vendor id that the source reports, if any.
    pub vendor_id: Option<u16>,
    /// The product id that the source reports, if any.
    pub product_id: Option<u16>,
    /// The device path that the source reports, if any.
    pub path: Option<String>,
    /// The platform handle of the source; 0 if it has none.
    pub steam_handle: u64,
    /// Through which API the source was opened, and what it says of itself.
    pub info: SdlDeviceInfo,
}

impl View for SourceProbe {
    type V = ProbeView;

    open spec fn view(&self) -> ProbeView {
        ProbeView {
            vendor_id: self.vendor_id,
            product_id: self.product_id,
            path: match self.path {
                Some(p) => Some(p@),
                None => None,
            },
            steam_handle: self.steam_handle,
            info: self.info,
        }
    }
}

/// A request to the handler from another part of the program.
#[derive(Clone, Debug)]
pub enum HandlerEvent {
    ViiperEvent(ViiperEvent),
    IgnoreDevice { device_id: u64 },
    ConnectViiperDevice { device_id: u64 },
    DisconnectViiperDevice { device_id: u64 },
    CefDebugReady { port: u16 },
    OverlayStateChanged { open: bool },
    SetKbmEmulationEnabled { enabled: bool },
    ViiperReady { version: String },
}

impl View for HandlerEvent {
    type V = HandlerEventView;

    open spec fn view(&self) -> HandlerEventView {
        match *self {
            HandlerEvent::ViiperEvent(e) => HandlerEventView::ViiperEvent(e@),
            HandlerEvent::IgnoreDevice { device_id } => HandlerEventView::IgnoreDevice {
                device_id,
            },
            HandlerEvent::ConnectViiperDevice { device_id } => {
                HandlerEventView::ConnectViiperDevice { device_id }
            },
            HandlerEvent::DisconnectViiperDevice { device_id } => {
                HandlerEventView::DisconnectViiperDevice { device_id }
            },
            HandlerEvent::CefDebugReady { port } => HandlerEventView::CefDebugReady { port },
            HandlerEvent::OverlayStateChanged { open } => HandlerEventView::OverlayStateChanged {
                open,
            },
            HandlerEvent::SetKbmEmulationEnabled { enabled } => {
                HandlerEventView::SetKbmEmulationEnabled { enabled }
            },
            HandlerEvent::ViiperReady { version } => HandlerEventView::ViiperReady {
                version: version@,
            },
        }
    }
}

/// One event of the input loop, with what the caller read for it.
#[derive(Clone, Debug)]
pub enum InputEvent {
    /// The program is to end.
    Quit,
    /// A source appeared and could be opened.
    PadAdded { which: u32, probe: SourceProbe },
    /// A source disappeared; `is_joystick` tells through which API this was reported.
    PadRemoved { which: u32, is_joystick: bool },
    /// The platform handles of a source changed; `readings` holds what was
    /// read from each of its gamepad handles, `None` if it has no handles.
    SteamHandleUpdated { readings: Option<Vec<HandleReading>> },
    /// The refresh cycle of a source completed; `snapshot` is what was read
    /// from its first gamepad handle, `None` if it has none.
    UpdateComplete { which: u32, snapshot: Option<GamepadSnapshot> },
    /// A request from another part of the program.
    Handler(HandlerEvent),
    /// Anything else.
    Other,
}

impl View for InputEvent {
    type V = InputEventView;

    open spec fn view(&self) -> InputEventView {
        match *self {
            InputEvent::Quit => InputEventView::Quit,
            InputEvent::PadAdded { which, probe } => InputEventView::PadAdded {
                which,
                probe: probe@,
            },
            InputEvent::PadRemoved { which, is_joystick } => InputEventView::PadRemoved {
                which,
                is_joystick,
            },
            InputEvent::SteamHandleUpdated { readings } => InputEventView::SteamHandleUpdated {
                readings: match readings {
                    Some(rs) => Some(rs@),
                    None => None,
                },
            },
            InputEvent::UpdateComplete { which, snapshot } => InputEventView::UpdateComplete {
                which,
                snapshot,
            },
            InputEvent::Handler(e) => InputEventView::Handler(e@),
            InputEvent::Other => InputEventView::Other,
        }
    }
}

/// What one event of the input loop led to.
#[derive(Clone, Debug)]
pub struct Processed {
    /// Whether the loop is to end.
    pub quit: bool,
    /// Whether a redraw is due once the waiting events are worked off.
    pub redraw: bool,
    /// What is to be done now, in order.
    pub actions: Vec<Action>,
}

/// The event handler.
pub struct EventHandler {
    devices: Registry,
    sdl_id_to_device: Vec<SourceEntry>,
    next_device_id: u64,
    viiper: ViiperBridge,
    enforcer: BindingEnforcer,
    steam_overlay_open: bool,
    kbm_emulation_enabled: bool,
    continuous_draw_in_config: bool,
    cef_debug_port: Option<u16>,
    viiper_ready: bool,
    viiper_version: Option<String>,
}

impl View for EventHandler {
    type V = HandlerView;

    closed spec fn view(&self) -> HandlerView {
        HandlerView {
            devices: self.devices@,
            index: self.sdl_id_to_device@,
            next_device_id: self.next_device_id,
            bridge: self.viiper@,
            enforcer_active: self.enforcer.spec_active(),
            enforcer_app_id: self.enforcer.spec_app_id(),
            steam_overlay_open: self.steam_overlay_open,
            kbm_emulation_enabled: self.kbm_emulation_enabled,
            continuous_draw_in_config: self.continuous_draw_in_config,
            cef_debug_port: self.cef_debug_port,
            viiper_ready: self.viiper_ready,
            viiper_version: match self.viiper_version {
                Some(v) => Some(v@),
                None => None,
            },
        }
    }
}

impl EventHandler {
    /// Whether the handler is in a state that its functions can start from:
    /// what [`HandlerView::wf`] says of its contents.
    pub open spec fn wf(&self) -> bool {
        self@.wf()
    }

    /// Where the entry of source `which` stands in the index.
    fn find_source(&self, which: u32) -> (r: Option<usize>)
        ensures
            match r {
                Some(p) => p == self@.source_pos(which) && self@.has_source(which)
                    && self@.index[p as int].source_id == which,
                None => !self@.has_source(which),
            },
    {
        let ghost keys = source_ids(self@.index);
        let mut i: usize = 0;
        while i < self.sdl_id_to_device.len()
            invariant
                i <= self.sdl_id_to_device@.len(),
                keys == source_ids(self.sdl_id_to_device@),
                forall|k: int| 0 <= k < i ==> keys[k] != which,
            decreases self.sdl_id_to_device@.len() - i,
        {
            if self.sdl_id_to_device[i].source_id == which {
                proof {
                    assert(keys[i as int] == which);
                    lemma_first_index(keys, which, i as int);
                }
                return Some(i);
            }
            assert(keys[i as int] != which);
            i = i + 1;
        }
        proof {
            lemma_first_index(keys, which, i as int);
        }
        None
    }

    /// Handles the removal of source `which`, reported by the joystick API
    /// (`is_joystick`) or by the gamepad API; see [`HandlerView::removed`].
    pub fn on_pad_removed(&mut self, which: u32, is_joystick: bool) -> (actions: Vec<Action>)
        requires
            old(self).wf(),
        ensures
            final(self).wf(),
            final(self)@ == old(self)@.removed(which, is_joystick).state,
            action_views(actions@) == old(self)@.removed(which, is_joystick).actions,
    {
        proof {
            lemma_removed_wf(self@, which, is_joystick);
        }
        let mut actions: Vec<Action> = no_actions();
        push_action(&mut actions, Action::ReleaseHandle { source_id: which });
        assert(action_views(actions@) =~= seq![ActionView::ReleaseHandle { source_id: which }]);
        let p: usize = match self.find_source(which) {
            Some(p) => p,
            None => {
                return actions;
            },
        };
        let id: u64 = self.sdl_id_to_device[p].device_id;
        let dp: usize = match self.devices.find(id) {
            Some(dp) => dp,
            None => {
                return actions;
            },
        };
        match self.devices.find_info(dp, !is_joystick) {
            Some(k) => {
                self.devices.remove_info(dp, k);
            },
            None => {},
        }
        if self.devices.get(dp).sdl_device_infos.len() > 0 {
            assert(self@.devices =~= old(self)@.removed(which, is_joystick).state.devices);
            return actions;
        }
        self.devices.remove_source(dp, which);
        if self.devices.get(dp).sdl_ids.len() > 0 {
            assert(self@.devices =~= old(self)@.removed(which, is_joystick).state.devices);
            return actions;
        }
        let was_bound: bool = self.devices.get(dp).steam_bound();
        self.viiper.remove_device(id);
        self.sdl_id_to_device.remove(p);
        self.devices.remove(dp);
        assert(self@.devices =~= old(self)@.removed(which, is_joystick).state.devices);
        if was_bound && !self.devices.any_steam_bound() {
            match self.enforcer.deactivate() {
                Some(url) => {
                    push_action(&mut actions, Action::OpenSteamUrl { url, activating: false });
                },
                None => {},
            }
        }
        assert(action_views(actions@) =~= old(self)@.removed(which, is_joystick).actions);
        actions
    }

    /// Handles the addition of source `which`, of which `probe` was read
    /// after opening it; see [`HandlerView::added`].
    pub fn on_pad_added(&mut self, which: u32, probe: SourceProbe) -> (actions: Vec<Action>)
        requires
            old(self).wf(),
        ensures
            final(self).wf(),
            final(self)@ == old(self)@.added(which, probe@).state,
            action_views(actions@) == old(self)@.added(which, probe@).actions,
    {
        let ids: (String, String) = comparison_pair(
            probe.vendor_id,
            probe.product_id,
            match &probe.path {
                Some(p) => Some(p.as_str()),
                None => None,
            },
        );
        assert((ids.0@, ids.1@) == probe@.pair());
        let copy: bool = probe.info.is_gamepad && self.devices.is_clone(
            ids.0.as_str(),
            ids.1.as_str(),
        );
        self.add_source(which, probe, copy)
    }

    /// Handles the addition of source `which`, of which `probe` was read
    /// after opening it, given whether the source is the copy of a bridged
    /// device; see [`HandlerView::added_as`].
    pub fn add_source(&mut self, which: u32, probe: SourceProbe, copy: bool) -> (actions: Vec<
        Action,
    >)
        requires
            old(self).wf(),
        ensures
            final(self).wf(),
            final(self)@ == old(self)@.added_as(which, probe@, copy).state,
            action_views(actions@) == old(self)@.added_as(which, probe@, copy).actions,
    {
        proof {
            lemma_added_as_wf(self@, which, probe@, copy);
        }
        let found: Option<usize> = self.find_source(which);
        if copy {
            let shadowed: bool = match found {
                Some(p) => match self.devices.find(self.sdl_id_to_device[p].device_id) {
                    Some(dp) => self.devices.get(dp).has_joystick_info(),
                    None => false,
                },
                None => false,
            };
            if shadowed {
                return self.on_pad_removed(which, true);
            }
            return no_actions();
        }
        let handle: u64 = if probe.info.is_gamepad {
            probe.steam_handle
        } else {
            0
        };
        let mut actions: Vec<Action> = no_actions();
        match found {
            Some(p) => {
                push_action(&mut actions, Action::StoreHandle { source_id: which });
                assert(action_views(actions@) =~= seq![
                    ActionView::StoreHandle { source_id: which },
                ]);
                match self.devices.find(self.sdl_id_to_device[p].device_id) {
                    Some(dp) => {
                        let had_handle: u64 = self.devices.get(dp).steam_handle;
                        let had_remote: bool = self.devices.get(dp).viiper_device.is_some();
                        self.devices.push_info(dp, probe.info);
                        if had_handle == 0 && handle != 0 {
                            self.devices.set_steam_handle(dp, handle);
                            if !had_remote {
                                let request: BridgeRequest = self.viiper.create_device(
                                    self.devices.get(dp),
                                );
                                push_action(&mut actions, Action::Bridge(request));
                            }
                        }
                        assert(self@.devices =~= old(self)@.added_as(which, probe@, copy).state.devices);
                    },
                    None => {},
                }
            },
            None => {
                if self.next_device_id == u64::MAX {
                    return actions;
                }
                push_action(&mut actions, Action::StoreHandle { source_id: which });
                assert(action_views(actions@) =~= seq![
                    ActionView::StoreHandle { source_id: which },
                ]);
                let id: u64 = self.next_device_id;
                let mut sdl_ids: Vec<u32> = Vec::new();
                sdl_ids.push(which);
                let mut infos: Vec<SdlDeviceInfo> = Vec::new();
                infos.push(probe.info);
                let device = Device {
                    id,
                    sdl_ids,
                    steam_handle: handle,
                    viiper_type: "xbox360".to_owned(),
                    viiper_device: None,
                    viiper_connected: false,
                    sdl_device_infos: infos,
                };
                proof {
                    assert(device@.sdl_ids =~= seq![which]);
                    assert(device@.sdl_device_infos =~= seq![probe@.info]);
                    assert(device@ == old(self)@.new_device(which, probe@));
                }
                if handle != 0 {
                    let request: BridgeRequest = self.viiper.create_device(&device);
                    push_action(&mut actions, Action::Bridge(request));
                }
                self.devices.push(device);
                self.sdl_id_to_device.push(
                    SourceEntry { source_id: which, device_id: id, state: DeviceState::new() },
                );
                self.next_device_id = id + 1;
            },
        }
        actions
    }

    /// A handler without devices. `has_client` tells whether a server
    /// address is configured, `continuous_draw_in_config` whether the
    /// settings ask for continuous redraw. With keyboard and mouse emulation
    /// on, the emulated devices are created at once; see
    /// [`HandlerView::initial`].
    pub fn new(
        has_client: bool,
        kbm_emulation_enabled: bool,
        enforcer: BindingEnforcer,
        continuous_draw_in_config: bool,
    ) -> (r: (Self, Vec<Action>))
        ensures
            r.0.wf(),
            r.0@ == HandlerView::initial(
                has_client,
                kbm_emulation_enabled,
                enforcer.spec_active(),
                enforcer.spec_app_id(),
                continuous_draw_in_config,
            ).state,
            action_views(r.1@) == HandlerView::initial(
                has_client,
                kbm_emulation_enabled,
                enforcer.spec_active(),
                enforcer.spec_app_id(),
                continuous_draw_in_config,
            ).actions,
    {
        proof {
            lemma_initial_wf(
                has_client,
                kbm_emulation_enabled,
                enforcer.spec_active(),
                enforcer.spec_app_id(),
                continuous_draw_in_config,
            );
            lemma_initial_wf(
                has_client,
                false,
                enforcer.spec_active(),
                enforcer.spec_app_id(),
                continuous_draw_in_config,
            );
        }
        let mut handler = EventHandler {
            devices: Registry::new(),
            sdl_id_to_device: Vec::new(),
            next_device_id: 1,
            viiper: ViiperBridge::new(has_client),
            enforcer,
            steam_overlay_open: false,
            kbm_emulation_enabled,
            continuous_draw_in_config,
            cef_debug_port: None,
            viiper_ready: false,
            viiper_version: None,
        };
        let mut actions: Vec<Action> = no_actions();
        if kbm_emulation_enabled {
            let ghost base = handler@;
            proof {
                lemma_same_tables_wf(
                    HandlerView::initial(
                        has_client,
                        false,
                        enforcer.spec_active(),
                        enforcer.spec_app_id(),
                        continuous_draw_in_config,
                    ).state,
                    base,
                );
                lemma_with_emulated_wf(base, kind_keyboard());
            }
            handler.add_emulated("keyboard", &mut actions);
            handler.add_emulated("mouse", &mut actions);
            assert(action_views(actions@) =~= base.with_emulated(kind_keyboard()).then_emulated(
                kind_mouse(),
            ).actions);
        }
        (handler, actions)
    }

    /// Creates an emulated device of the given type; see [`HandlerView::with_emulated`].
    fn add_emulated(&mut self, kind: &str, actions: &mut Vec<Action>)
        requires
            old(self).wf(),
            kind@ == kind_keyboard() || kind@ == kind_mouse(),
        ensures
            final(self).wf(),
            final(self)@ == old(self)@.with_emulated(kind@).state,
            action_views(final(actions)@) == action_views(old(actions)@) + old(
                self,
            )@.with_emulated(kind@).actions,
    {
        proof {
            lemma_with_emulated_wf(self@, kind@);
        }
        if self.next_device_id == u64::MAX {
            assert(action_views(actions@) =~= action_views(old(actions)@) + old(
                self,
            )@.with_emulated(kind@).actions);
            return;
        }
        let id: u64 = self.next_device_id;
        let device: Device = Device::new(id, kind);
        let request: BridgeRequest = self.viiper.create_device(&device);
        push_action(actions, Action::Bridge(request));
        self.devices.push(device);
        self.next_device_id = id + 1;
        assert(action_views(actions@) =~= action_views(old(actions)@) + old(self)@.with_emulated(
            kind@,
        ).actions);
    }

    /// Whether the registry holds a device of the given type.
    fn has_kind(&self, kind: &str) -> (r: bool)
        ensures
            r == self@.has_kind(kind@),
    {
        let mut i: usize = 0;
        while i < self.devices.len()
            invariant
                i <= self@.devices.len(),
                forall|k: int| 0 <= k < i ==> (#[trigger] self@.devices[k]).viiper_type != kind@,
            decreases self@.devices.len() - i,
        {
            if same_text(self.devices.get(i).viiper_type.as_str(), kind) {
                assert(self@.devices[i as int].viiper_type == kind@);
                return true;
            }
            assert(self@.devices[i as int].viiper_type != kind@);
            i = i + 1;
        }
        false
    }

    /// Makes sure that an emulated device of the given type is there.
    fn ensure_emulated(&mut self, kind: &str, actions: &mut Vec<Action>)
        requires
            old(self).wf(),
            kind@ == kind_keyboard() || kind@ == kind_mouse(),
        ensures
            final(self).wf(),
            final(self)@ == old(self)@.ensured_emulated(kind@).state,
            action_views(final(actions)@) == action_views(old(actions)@) + old(
                self,
            )@.ensured_emulated(kind@).actions,
    {
        if self.has_kind(kind) {
            assert(action_views(actions@) =~= action_views(old(actions)@) + old(
                self,
            )@.ensured_emulated(kind@).actions);
        } else {
            self.add_emulated(kind, actions);
        }
    }

    /// Handles a refresh of the platform handles of one source; see
    /// [`HandlerView::refreshed`]. `readings` holds what was read from each
    /// gamepad handle of the source, in the order of the handles; `None`
    /// where the source has no handles.
    pub fn on_steam_handle_updated(&mut self, readings: Option<Vec<HandleReading>>) -> (actions:
        Vec<Action>)
        requires
            old(self).wf(),
        ensures
            final(self).wf(),
            final(self)@ == old(self)@.refreshed(
                match readings {
                    Some(rs) => Some(rs@),
                    None => None,
                },
            ).state,
            action_views(actions@) == old(self)@.refreshed(
                match readings {
                    Some(rs) => Some(rs@),
                    None => None,
                },
            ).actions,
    {
        let mut actions: Vec<Action> = no_actions();
        let rs: Vec<HandleReading> = match readings {
            Some(rs) => rs,
            None => {
                return actions;
            },
        };
        let ghost start = self@;
        let mut i: usize = 0;
        assert(rs@.subrange(0, 0) =~= Seq::<HandleReading>::empty());
        while i < rs.len()
            invariant
                i <= rs@.len(),
                start.wf(),
                self@ == start.refreshed_all(rs@.subrange(0, i as int)).state,
                action_views(actions@) == start.refreshed_all(rs@.subrange(0, i as int)).actions,
            decreases rs@.len() - i,
        {
            let reading: HandleReading = rs[i];
            let ghost before = self@;
            proof {
                lemma_refreshed_all_wf(start, rs@.subrange(0, i as int));
                lemma_refreshed_all_wf(start, rs@.subrange(0, i + 1));
                assert(rs@.subrange(0, i + 1).drop_last() =~= rs@.subrange(0, i as int));
                assert(rs@.subrange(0, i + 1).last() == reading);
            }
            match reading.instance_id {
                Some(which) => {
                    match self.find_source(which) {
                        Some(p) => {
                            match self.devices.find(self.sdl_id_to_device[p].device_id) {
                                Some(dp) => {
                                    let had_remote: bool = self.devices.get(
                                        dp,
                                    ).viiper_device.is_some();
                                    self.devices.set_steam_handle(dp, reading.steam_handle);
                                    if !had_remote && reading.steam_handle != 0 {
                                        let request: BridgeRequest = self.viiper.create_device(
                                            self.devices.get(dp),
                                        );
                                        push_action(&mut actions, Action::Bridge(request));
                                    }
                                },
                                None => {},
                            }
                        },
                        None => {},
                    }
                },
                None => {},
            }
            proof {
                assert(self@ == before.refreshed_one(reading).state);
                assert(action_views(actions@) =~= start.refreshed_all(
                    rs@.subrange(0, i as int),
                ).actions + before.refreshed_one(reading).actions);
            }
            i = i + 1;
        }
        proof {
            assert(rs@.subrange(0, rs@.len() as int) =~= rs@);
            lemma_refreshed_all_wf(start, rs@);
        }
        push_action(&mut actions, Action::Redraw);
        actions
    }

    /// Handles the end of a refresh cycle of source `which`; see
    /// [`HandlerView::update_completed`]. `snapshot` is what was read from
    /// the first gamepad handle of the source, `None` where it has none.
    /// The answer tells whether the report was queued for sending.
    pub fn on_update_complete(&mut self, which: u32, snapshot: Option<GamepadSnapshot>) -> (queued:
        bool)
        requires
            old(self).wf(),
        ensures
            final(self).wf(),
            final(self)@ == old(self)@.update_completed(which, snapshot),
            queued == (old(self)@.streams_update(which, snapshot) && old(
                self,
            )@.bridge.queues.contains_key(old(self)@.index[old(self)@.source_pos(which)].device_id)),
    {
        proof {
            lemma_update_completed_wf(self@, which, snapshot);
        }
        if self.steam_overlay_open {
            return false;
        }
        let p: usize = match self.find_source(which) {
            Some(p) => p,
            None => {
                return false;
            },
        };
        let gp: GamepadSnapshot = match snapshot {
            Some(gp) => gp,
            None => {
                return false;
            },
        };
        let mut entry: SourceEntry = self.sdl_id_to_device[p];
        entry.state.update_from_sdl_gamepad(&gp);
        assert(entry.state == (DeviceState { input: spec_report(gp) }));
        self.sdl_id_to_device.set(p, entry);
        self.viiper.update_device_state(entry.device_id, &entry.state)
    }

    /// Switches binding enforcement off if `was_bound` and no device is bound any more.
    fn release_bindings(&self, was_bound: bool, actions: &mut Vec<Action>)
        ensures
            action_views(final(actions)@) == action_views(old(actions)@) + self@.release_bindings(
                was_bound,
                self@.devices,
            ),
    {
        if was_bound && !self.devices.any_steam_bound() {
            match self.enforcer.deactivate() {
                Some(url) => {
                    push_action(actions, Action::OpenSteamUrl { url, activating: false });
                },
                None => {},
            }
        }
        assert(action_views(actions@) =~= action_views(old(actions)@) + self@.release_bindings(
            was_bound,
            self@.devices,
        ));
    }

    /// Handles an event from the bridge; see [`HandlerView::remote_event`].
    pub fn on_viiper_event(&mut self, event: ViiperEvent) -> (actions: Vec<Action>)
        requires
            old(self).wf(),
        ensures
            final(self).wf(),
            final(self)@ == old(self)@.remote_event(event@).state,
            action_views(actions@) == old(self)@.remote_event(event@).actions,
    {
        proof {
            lemma_remote_event_wf(self@, event@);
        }
        let mut actions: Vec<Action> = no_actions();
        match event {
            ViiperEvent::ServerDisconnected { device_id } => {
                self.viiper.remove_device(device_id);
                match self.devices.find(device_id) {
                    Some(dp) => {
                        let was_bound: bool = self.devices.get(dp).steam_bound();
                        self.devices.set_viiper_device(dp, None);
                        self.devices.set_viiper_connected(dp, false);
                        assert(self@.devices =~= old(self)@.remote_event(event@).state.devices);
                        self.release_bindings(was_bound, &mut actions);
                    },
                    None => {},
                }
            },
            ViiperEvent::DeviceCreated { device_id, viiper_device } => {
                match self.devices.find(device_id) {
                    Some(dp) => {
                        self.devices.set_viiper_device(dp, Some(viiper_device));
                        let request: BridgeRequest = self.viiper.connect_device(
                            self.devices.get(dp),
                        );
                        push_action(&mut actions, Action::Bridge(request));
                        push_action(&mut actions, Action::Redraw);
                        assert(action_views(actions@) =~= old(self)@.remote_event(event@).actions);
                    },
                    None => {},
                }
            },
            ViiperEvent::DeviceConnected { device_id } => {
                let live: Option<usize> = match self.devices.find(device_id) {
                    Some(dp) => if self.devices.get(dp).viiper_device.is_some() {
                        Some(dp)
                    } else {
                        None
                    },
                    None => None,
                };
                match live {
                    Some(dp) => {
                        let bound: bool = self.devices.get(dp).steam_handle != 0;
                        self.devices.set_viiper_connected(dp, true);
                        if bound {
                            match self.enforcer.activate() {
                                Some(url) => {
                                    push_action(
                                        &mut actions,
                                        Action::OpenSteamUrl { url, activating: true },
                                    );
                                },
                                None => {},
                            }
                        }
                        push_action(&mut actions, Action::Redraw);
                        assert(action_views(actions@) =~= old(self)@.remote_event(event@).actions);
                    },
                    None => {
                        self.viiper.remove_device(device_id);
                    },
                }
            },
            ViiperEvent::DeviceRumble { device_id, l, r } => {
                match self.devices.find(device_id) {
                    Some(dp) => {
                        let device: &Device = self.devices.get(dp);
                        if device.sdl_ids.len() > 0 {
                            let source_id: u32 = device.sdl_ids[0];
                            push_action(
                                &mut actions,
                                Action::Rumble {
                                    source_id,
                                    low_frequency: l as u16 * 257,
                                    high_frequency: r as u16 * 257,
                                    duration_ms: RUMBLE_DURATION_MS,
                                },
                            );
                            push_action(&mut actions, Action::Redraw);
                            assert(action_views(actions@) =~= old(self)@.remote_event(
                                event@,
                            ).actions);
                        }
                    },
                    None => {},
                }
            },
            ViiperEvent::ErrorCreateDevice { device_id } => {
                push_action(&mut actions, Action::Redraw);
                assert(action_views(actions@) =~= old(self)@.remote_event(event@).actions);
            },
            ViiperEvent::ErrorConnectDevice { device_id } => {
                push_action(&mut actions, Action::Redraw);
                assert(action_views(actions@) =~= old(self)@.remote_event(event@).actions);
            },
        }
        actions
    }

    /// Switches keyboard and mouse emulation; see [`HandlerView::kbm_switched`].
    pub fn set_kbm_emulation_enabled(&mut self, enabled: bool) -> (actions: Vec<Action>)
        requires
            old(self).wf(),
        ensures
            final(self).wf(),
            final(self)@ == old(self)@.kbm_switched(enabled).state,
            action_views(actions@) == old(self)@.kbm_switched(enabled).actions,
    {
        proof {
            lemma_kbm_switched_wf(self@, enabled);
        }
        let mut actions: Vec<Action> = no_actions();
        if self.kbm_emulation_enabled == enabled {
            return actions;
        }
        self.kbm_emulation_enabled = enabled;
        let ghost base = self@;
        proof {
            lemma_same_tables_wf(old(self)@, base);
        }
        push_action(&mut actions, Action::Window(RunnerEvent::SetKbmCursorGrab(enabled)));
        if enabled {
            push_action(&mut actions, Action::ShowKbmNotice);
            assert(action_views(actions@) =~= seq![
                ActionView::Window(RunnerEvent::SetKbmCursorGrab(enabled)),
                ActionView::ShowKbmNotice,
            ]);
            self.ensure_emulated("keyboard", &mut actions);
            self.ensure_emulated("mouse", &mut actions);
            assert(action_views(actions@) =~= old(self)@.kbm_switched(enabled).actions);
        } else {
            assert(action_views(actions@) =~= seq![
                ActionView::Window(RunnerEvent::SetKbmCursorGrab(enabled)),
            ]);
            let mut n: usize = self.devices.len();
            while n > 0
                invariant
                    n <= self@.devices.len(),
                    self@.purged(n as nat) == base.purged(base.devices.len()),
                decreases n,
            {
                n = n - 1;
                if self.devices.get(n).emulated() {
                    let id: u64 = self.devices.get(n).id;
                    self.devices.remove(n);
                    self.viiper.remove_device(id);
                }
            }
        }
        actions
    }

    /// Takes the device `device_id` out of the registry on the user's
    /// request; see [`HandlerView::ignored`].
    pub fn ignore_device(&mut self, device_id: u64)
        requires
            old(self).wf(),
        ensures
            final(self).wf(),
            final(self)@ == old(self)@.ignored(device_id),
    {
        proof {
            lemma_ignored_wf(self@, device_id);
        }
        match self.devices.find(device_id) {
            Some(dp) => {
                self.devices.remove(dp);
            },
            None => {},
        }
    }

    /// Asks for a virtual device for `device_id` on the user's request; see
    /// [`HandlerView::connect_requested`]. The state stays as it is.
    pub fn connect_viiper_device(&self, device_id: u64) -> (actions: Vec<Action>)
        ensures
            action_views(actions@) == self@.connect_requested(device_id),
    {
        let mut actions: Vec<Action> = no_actions();
        match self.devices.find(device_id) {
            Some(dp) => {
                let device: &Device = self.devices.get(dp);
                if device.viiper_connected || device.viiper_device.is_some() {
                    return actions;
                }
                if device.steam_handle == 0 {
                    return actions;
                }
                let request: BridgeRequest = self.viiper.create_device(device);
                push_action(&mut actions, Action::Bridge(request));
                push_action(&mut actions, Action::Redraw);
                assert(action_views(actions@) =~= self@.connect_requested(device_id));
            },
            None => {},
        }
        actions
    }

    /// Stops the stream of `device_id` on the user's request; see
    /// [`HandlerView::disconnect_requested`].
    pub fn disconnect_viiper_device(&mut self, device_id: u64)
        requires
            old(self).wf(),
        ensures
            final(self).wf(),
            final(self)@ == old(self)@.disconnect_requested(device_id),
    {
        proof {
            lemma_same_tables_wf(self@, self@.disconnect_requested(device_id));
        }
        match self.devices.find(device_id) {
            Some(dp) => {
                let device: &Device = self.devices.get(dp);
                if device.viiper_connected && device.viiper_device.is_some() {
                    self.viiper.remove_device(device_id);
                }
            },
            None => {},
        }
    }

    /// Takes note that the server is ready and asks for the virtual devices
    /// that are due; see [`HandlerView::ready`].
    pub fn on_viiper_ready(&mut self, version: String) -> (actions: Vec<Action>)
        requires
            old(self).wf(),
        ensures
            final(self).wf(),
            final(self)@ == old(self)@.ready(version@).state,
            action_views(actions@) == old(self)@.ready(version@).actions,
    {
        proof {
            lemma_same_tables_wf(self@, self@.ready(version@).state);
        }
        self.viiper_version = Some(version);
        self.viiper_ready = true;
        let mut actions: Vec<Action> = no_actions();
        push_action(&mut actions, Action::Redraw);
        let mut i: usize = 0;
        assert(action_views(actions@) =~= seq![ActionView::Redraw] + old(self)@.ready_requests(0));
        while i < self.devices.len()
            invariant
                i <= self@.devices.len(),
                self@ == old(self)@.ready(version@).state,
                action_views(actions@) == seq![ActionView::Redraw] + old(self)@.ready_requests(
                    i as nat,
                ),
            decreases self@.devices.len() - i,
        {
            let device: &Device = self.devices.get(i);
            if device.viiper_device.is_none() && (device.emulated() || device.steam_handle != 0) {
                let request: BridgeRequest = self.viiper.create_device(device);
                push_action(&mut actions, Action::Bridge(request));
            }
            i = i + 1;
            assert(action_views(actions@) =~= seq![ActionView::Redraw] + old(
                self,
            )@.ready_requests(i as nat));
        }
        actions
    }

    /// Takes note of the debug port of the platform client; see
    /// [`HandlerView::cef_ready`]. `continuous_redraw` tells whether the
    /// window is redrawn continuously at this moment.
    pub fn on_cef_debug_ready(
        &mut self,
        port: u16,
        continuous_redraw: bool,
        launched_via_steam: bool,
    ) -> (actions: Vec<Action>)
        requires
            old(self).wf(),
        ensures
            final(self).wf(),
            final(self)@ == old(self)@.cef_ready(port, continuous_redraw, launched_via_steam).state,
            action_views(actions@) == old(self)@.cef_ready(
                port,
                continuous_redraw,
                launched_via_steam,
            ).actions,
    {
        proof {
            lemma_same_tables_wf(
                self@,
                self@.cef_ready(port, continuous_redraw, launched_via_steam).state,
            );
        }
        self.cef_debug_port = Some(port);
        let mut actions: Vec<Action> = no_actions();
        push_action(&mut actions, Action::Redraw);
        if !continuous_redraw {
            let delay_secs: u32 = if launched_via_steam {
                0
            } else {
                5
            };
            push_action(&mut actions, Action::InjectOverlayNotifier { delay_secs });
        }
        assert(action_views(actions@) =~= old(self)@.cef_ready(
            port,
            continuous_redraw,
            launched_via_steam,
        ).actions);
        actions
    }

    /// Takes note that the overlay opened or closed; see
    /// [`HandlerView::overlay_changed`].
    pub fn on_overlay_state_changed(&mut self, open: bool) -> (actions: Vec<Action>)
        requires
            old(self).wf(),
        ensures
            final(self).wf(),
            final(self)@ == old(self)@.overlay_changed(open).state,
            action_views(actions@) == old(self)@.overlay_changed(open).actions,
    {
        proof {
            lemma_same_tables_wf(self@, self@.overlay_changed(open).state);
        }
        let mut actions: Vec<Action> = no_actions();
        if self.continuous_draw_in_config {
            return actions;
        }
        self.steam_overlay_open = open;
        let delay_ms: u32 = if open {
            0
        } else {
            1000
        };
        push_action(&mut actions, Action::SetContinuousRedraw { on: open, delay_ms });
        push_action(&mut actions, Action::Window(RunnerEvent::OverlayStateChanged(open)));
        assert(action_views(actions@) =~= old(self)@.overlay_changed(open).actions);
        actions
    }

    /// Takes the outcome of an [`Action::OpenSteamUrl`]; see
    /// [`HandlerView::url_opened`].
    pub fn on_steam_url_opened(&mut self, activating: bool, opened: bool)
        requires
            old(self).wf(),
        ensures
            final(self).wf(),
            final(self)@ == old(self)@.url_opened(activating, opened),
    {
        proof {
            lemma_same_tables_wf(self@, self@.url_opened(activating, opened));
        }
        self.enforcer.url_opened(activating, opened);
    }

    /// Starts the creation task that a [`BridgeRequest::Create`] asked for.
    pub fn start_create(&self, device_id: u64, device_type: String) -> (r: (CreateTask, ServerCall))
        ensures
            r.0@.device_id == device_id,
            r.0@.device_type == device_type@,
            r.0@.phase == self@.bridge.first_phase(),
            r.1@ == self@.bridge.first_call(),
    {
        self.viiper.start_create(device_id, device_type)
    }

    /// Takes the server's reply to the last request of `task`; see
    /// [`spec_continue`]. Only the cached bus changes.
    pub fn continue_create(&mut self, task: &mut CreateTask, reply: ServerReply) -> (r: TaskStep)
        requires
            old(self).wf(),
        ensures
            final(self).wf(),
            final(task)@.device_id == old(task)@.device_id,
            final(task)@.device_type == old(task)@.device_type,
            final(task)@.phase == spec_continue(old(task)@, reply@).0,
            r@ == spec_continue(old(task)@, reply@).2,
            final(self)@ == (HandlerView {
                bridge: BridgeView {
                    bus_id: match spec_continue(old(task)@, reply@).1 {
                        Some(id) => Some(id),
                        None => old(self)@.bridge.bus_id,
                    },
                    ..old(self)@.bridge
                },
                ..old(self)@
            }),
    {
        let step: TaskStep = self.viiper.continue_create(task, reply);
        proof {
            lemma_same_tables_wf(old(self)@, self@);
        }
        step
    }

    /// Takes the outcome of opening the stream that a
    /// [`BridgeRequest::Connect`] asked for: a stream that stands gets an
    /// empty outbound queue. The event is to be handed to
    /// [`Self::on_viiper_event`].
    pub fn connect_finished(&mut self, device_id: u64, connected: bool) -> (r: ViiperEvent)
        requires
            old(self).wf(),
        ensures
            final(self).wf(),
            final(self)@ == (HandlerView {
                bridge: if connected {
                    old(self)@.bridge.opened(device_id)
                } else {
                    old(self)@.bridge
                },
                ..old(self)@
            }),
            r@ == if connected {
                ViiperEventView::DeviceConnected { device_id }
            } else {
                ViiperEventView::ErrorConnectDevice { device_id }
            },
    {
        let event: ViiperEvent = self.viiper.connect_finished(device_id, connected);
        proof {
            lemma_same_tables_wf(old(self)@, self@);
        }
        event
    }

    /// Takes the oldest waiting report of `device_id` for sending.
    pub fn next_frame(&mut self, device_id: u64) -> (r: StreamPoll)
        requires
            old(self).wf(),
        ensures
            final(self).wf(),
            final(self)@ == (HandlerView {
                bridge: old(self)@.bridge.dequeued(device_id),
                ..old(self)@
            }),
            match r {
                StreamPoll::Frame(bytes) => old(self)@.bridge.queues.contains_key(device_id)
                    && old(self)@.bridge.queues[device_id].len() > 0 && bytes@ == wire_frame(
                    old(self)@.bridge.queues[device_id][0],
                ),
                StreamPoll::Idle => old(self)@.bridge.queues.contains_key(device_id) && old(
                    self,
                )@.bridge.queues[device_id].len() == 0,
                StreamPoll::Closed => !old(self)@.bridge.queues.contains_key(device_id),
            },
    {
        let poll: StreamPoll = self.viiper.next_frame(device_id);
        proof {
            lemma_same_tables_wf(old(self)@, self@);
        }
        poll
    }

    /// Handles a request from another part of the program by the function
    /// that the request names; see [`HandlerView::requested`].
    pub fn on_handler_event(&mut self, event: HandlerEvent, around: Surroundings) -> (actions: Vec<
        Action,
    >)
        requires
            old(self).wf(),
        ensures
            final(self).wf(),
            final(self)@ == old(self)@.requested(event@, around).state,
            action_views(actions@) == old(self)@.requested(event@, around).actions,
    {
        match event {
            HandlerEvent::ViiperEvent(e) => self.on_viiper_event(e),
            HandlerEvent::IgnoreDevice { device_id } => {
                self.ignore_device(device_id);
                no_actions()
            },
            HandlerEvent::ConnectViiperDevice { device_id } => self.connect_viiper_device(
                device_id,
            ),
            HandlerEvent::DisconnectViiperDevice { device_id } => {
                self.disconnect_viiper_device(device_id);
                no_actions()
            },
            HandlerEvent::CefDebugReady { port } => self.on_cef_debug_ready(
                port,
                around.continuous_redraw,
                around.launched_via_steam,
            ),
            HandlerEvent::OverlayStateChanged { open } => self.on_overlay_state_changed(open),
            HandlerEvent::SetKbmEmulationEnabled { enabled } => self.set_kbm_emulation_enabled(
                enabled,
            ),
            HandlerEvent::ViiperReady { version } => self.on_viiper_ready(version),
        }
    }

    /// Handles one event of the input loop by the function that the event
    /// belongs to; see [`HandlerView::processed`].
    pub fn process_one(&mut self, event: InputEvent, around: Surroundings) -> (r: Processed)
        requires
            old(self).wf(),
        ensures
            final(self).wf(),
            final(self)@ == old(self)@.processed(event@, around).0,
            r.quit == old(self)@.processed(event@, around).1.quit,
            r.redraw == old(self)@.processed(event@, around).1.redraw,
            action_views(r.actions@) == old(self)@.processed(event@, around).1.actions,
    {
        match event {
            InputEvent::Quit => Processed { quit: true, redraw: false, actions: no_actions() },
            InputEvent::PadAdded { which, probe } => {
                let actions: Vec<Action> = self.on_pad_added(which, probe);
                Processed { quit: false, redraw: true, actions }
            },
            InputEvent::PadRemoved { which, is_joystick } => {
                let actions: Vec<Action> = self.on_pad_removed(which, is_joystick);
                Processed { quit: false, redraw: true, actions }
            },
            InputEvent::SteamHandleUpdated { readings } => {
                let actions: Vec<Action> = self.on_steam_handle_updated(readings);
                Processed { quit: false, redraw: true, actions }
            },
            InputEvent::UpdateComplete { which, snapshot } => {
                self.on_update_complete(which, snapshot);
                Processed { quit: false, redraw: false, actions: no_actions() }
            },
            InputEvent::Handler(e) => {
                let actions: Vec<Action> = self.on_handler_event(e, around);
                Processed { quit: false, redraw: false, actions }
            },
            InputEvent::Other => Processed { quit: false, redraw: false, actions: no_actions() },
        }
    }

    /// The registry of devices.
    pub fn devices(&self) -> (r: &Registry)
        ensures
            r@ == self@.devices,
    {
        &self.devices
    }

    /// The bridge.
    pub fn bridge(&self) -> (r: &ViiperBridge)
        ensures
            r@ == self@.bridge,
    {
        &self.viiper
    }

    /// The binding enforcer.
    pub fn enforcer(&self) -> (r: &BindingEnforcer)
        ensures
            r.spec_active() == self@.enforcer_active,
            r.spec_app_id() == self@.enforcer_app_id,
    {
        &self.enforcer
    }

    /// The device that source `which` stands for, with the input last
    /// computed for the source.
    pub fn source(&self, which: u32) -> (r: Option<SourceEntry>)
        ensures
            match r {
                Some(e) => self@.has_source(which) && e == self@.index[self@.source_pos(which)],
                None => !self@.has_source(which),
            },
    {
        match self.find_source(which) {
            Some(p) => Some(self.sdl_id_to_device[p]),
            None => None,
        }
    }

    /// Whether the overlay is open.
    pub fn steam_overlay_open(&self) -> (r: bool)
        ensures
            r == self@.steam_overlay_open,
    {
        self.steam_overlay_open
    }

    /// Whether keyboard and mouse emulation is on.
    pub fn kbm_emulation_enabled(&self) -> (r: bool)
        ensures
            r == self@.kbm_emulation_enabled,
    {
        self.kbm_emulation_enabled
    }

    /// Whether the server was reported ready.
    pub fn viiper_ready(&self) -> (r: bool)
        ensures
            r == self@.viiper_ready,
    {
        self.viiper_ready
    }

    /// The version that the server reported, once it was reported ready.
    pub fn viiper_version(&self) -> (r: Option<String>)
        ensures
            match r {
                Some(v) => self@.viiper_version == Some(v@),
                None => self@.viiper_version.is_none(),
            },
    {
        match &self.viiper_version {
            Some(v) => Some(v.clone()),
            None => None,
        }
    }

    /// The debug port of the platform client, once known.
    pub fn cef_debug_port(&self) -> (r: Option<u16>)
        ensures
            r == self@.cef_debug_port,
    {
        self.cef_debug_port
    }
}

} // verus!
