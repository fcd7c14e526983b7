use sisr::actions::Action;
use sisr::binding_enforcer::BindingEnforcer;
use sisr::bridge::{
    BridgeRequest, ServerCall, ServerReply, StreamPoll, TaskStep, ViiperEvent,
};
use sisr::device::{GamepadSnapshot, SdlDeviceInfo, ViiperDevice};
use sisr::events::RunnerEvent;
use sisr::handler::{EventHandler, HandlerEvent, InputEvent, SourceProbe};
use sisr::model::{HandleReading, Surroundings};

const COPY_PATH: &str = r"\\.\pipe\HID#VID_045E&PID_028E&IG_00#045E&028E&00645E28E235E61F#2#4828";

fn handler() -> EventHandler {
    EventHandler::new(true, false, BindingEnforcer::new(Some("12884901890")), false).0
}

fn probe(is_gamepad: bool, steam_handle: u64) -> SourceProbe {
    SourceProbe {
        vendor_id: Some(0x054c),
        product_id: Some(0x09cc),
        path: Some("/dev/input/event7".to_string()),
        steam_handle,
        info: SdlDeviceInfo {
            is_gamepad,
            properties: vec![("name".to_string(), "Pad".to_string())],
        },
    }
}

fn copy_probe() -> SourceProbe {
    SourceProbe { path: Some(COPY_PATH.to_string()), ..probe(true, 77) }
}

fn remote(dev: &str) -> ViiperDevice {
    ViiperDevice {
        bus_id: 1,
        dev_id: dev.to_string(),
        vid: "0x045E".to_string(),
        pid: "0x028E".to_string(),
        device_type: "xbox360".to_string(),
    }
}

fn snapshot() -> GamepadSnapshot {
    GamepadSnapshot {
        south: true,
        east: false,
        west: false,
        north: false,
        start: false,
        back: false,
        left_stick: false,
        right_stick: false,
        left_shoulder: false,
        right_shoulder: false,
        guide: false,
        dpad_up: false,
        dpad_down: false,
        dpad_left: false,
        dpad_right: false,
        trigger_left: 32767,
        trigger_right: 0,
        left_x: 10,
        left_y: 20,
        right_x: 0,
        right_y: 0,
    }
}

fn show(actions: &[Action]) -> Vec<String> {
    actions.iter().map(|a| format!("{:?}", a)).collect()
}

fn creates(actions: &[Action]) -> Vec<u64> {
    actions
        .iter()
        .filter_map(|a| match a {
            Action::Bridge(BridgeRequest::Create { device_id, .. }) => Some(*device_id),
            _ => None,
        })
        .collect()
}

/// Carries a device through creation and connection, as the bridge's tasks would.
fn bridge(h: &mut EventHandler, device_id: u64, dev: &str) {
    let (mut task, call) = h.start_create(device_id, "xbox360".to_string());
    match call {
        ServerCall::ListBuses => h.continue_create(&mut task, ServerReply::Buses(vec![1])),
        _ => h.continue_create(&mut task, ServerReply::BusCreated(1)),
    };
    let step = h.continue_create(&mut task, ServerReply::DeviceAdded(remote(dev)));
    let event = match step {
        TaskStep::Done(event) => event,
        other => panic!("{:?}", other),
    };
    let actions = h.on_viiper_event(event);
    assert!(matches!(actions[0], Action::Bridge(BridgeRequest::Connect { .. })));
    let connected = h.connect_finished(device_id, true);
    h.on_viiper_event(connected);
}

#[test]
fn a_new_handler_is_empty() {
    let (h, actions) = EventHandler::new(true, false, BindingEnforcer::new(None), false);
    assert_eq!(h.devices().len(), 0);
    assert!(actions.is_empty());
    assert!(!h.viiper_ready());
    assert!(!h.steam_overlay_open());
    assert!(!h.kbm_emulation_enabled());
    assert_eq!(h.cef_debug_port(), None);
    assert_eq!(h.viiper_version(), None);
    assert!(h.source(1).is_none());
}

#[test]
fn a_new_handler_with_emulation_has_keyboard_and_mouse() {
    let (h, actions) = EventHandler::new(true, true, BindingEnforcer::new(None), false);
    assert_eq!(h.devices().len(), 2);
    assert_eq!(h.devices().get(0).id, 1);
    assert_eq!(h.devices().get(0).viiper_type, "keyboard");
    assert_eq!(h.devices().get(1).id, 2);
    assert_eq!(h.devices().get(1).viiper_type, "mouse");
    assert_eq!(creates(&actions), vec![1, 2]);
    assert!(h.kbm_emulation_enabled());
}

#[test]
fn adds_through_both_apis_give_one_device() {
    let mut h = handler();
    let a = h.on_pad_added(5, probe(false, 0));
    assert_eq!(show(&a), vec!["StoreHandle { source_id: 5 }"]);
    let b = h.on_pad_added(5, probe(true, 0));
    assert_eq!(show(&b), vec!["StoreHandle { source_id: 5 }"]);
    let c = h.on_pad_added(5, probe(false, 0));
    assert_eq!(show(&c), vec!["StoreHandle { source_id: 5 }"]);
    assert_eq!(h.devices().len(), 1);
    let d = h.devices().get(0);
    assert_eq!(d.id, 1);
    assert_eq!(d.sdl_ids, vec![5]);
    assert_eq!(d.sdl_device_infos.len(), 3);
    assert_eq!(d.viiper_type, "xbox360");
    assert_eq!(h.source(5).unwrap().device_id, 1);
}

#[test]
fn different_sources_get_rising_ids() {
    let mut h = handler();
    h.on_pad_added(5, probe(true, 0));
    h.on_pad_added(9, probe(true, 0));
    h.on_pad_removed(5, false);
    h.on_pad_added(5, probe(true, 0));
    let ids: Vec<u64> = (0..h.devices().len()).map(|i| h.devices().get(i).id).collect();
    assert_eq!(ids, vec![2, 3]);
    assert_eq!(h.source(5).unwrap().device_id, 3);
    assert_eq!(h.source(9).unwrap().device_id, 2);
}

#[test]
fn a_gamepad_with_handle_asks_for_its_virtual_device_at_once() {
    let mut h = handler();
    let a = h.on_pad_added(5, probe(true, 77));
    assert_eq!(a.len(), 2);
    assert!(matches!(a[0], Action::StoreHandle { source_id: 5 }));
    match &a[1] {
        Action::Bridge(BridgeRequest::Create { device_id, device_type }) => {
            assert_eq!(*device_id, 1);
            assert_eq!(device_type, "xbox360");
        }
        other => panic!("{:?}", other),
    }
    assert_eq!(h.devices().get(0).steam_handle, 77);
}

#[test]
fn a_joystick_never_carries_a_handle() {
    let mut h = handler();
    let a = h.on_pad_added(5, probe(false, 77));
    assert_eq!(a.len(), 1);
    assert_eq!(h.devices().get(0).steam_handle, 0);
    let b = h.on_pad_added(5, probe(true, 77));
    assert_eq!(creates(&b), vec![1]);
    assert_eq!(h.devices().get(0).steam_handle, 77);
    let c = h.on_pad_added(5, probe(true, 88));
    assert_eq!(creates(&c), Vec::<u64>::new());
    assert_eq!(h.devices().get(0).steam_handle, 77);
}

#[test]
fn without_server_creation_fails_at_once() {
    let (mut h, _) = EventHandler::new(false, false, BindingEnforcer::new(None), false);
    let a = h.on_pad_added(5, probe(true, 77));
    assert!(matches!(
        a[1],
        Action::Bridge(BridgeRequest::Emit(ViiperEvent::ErrorCreateDevice { device_id: 1 }))
    ));
    let b = h.on_viiper_event(ViiperEvent::ErrorCreateDevice { device_id: 1 });
    assert_eq!(show(&b), vec!["Redraw"]);
    assert!(h.devices().get(0).viiper_device.is_none());
}

#[test]
fn a_copy_of_a_bridged_device_is_discarded() {
    let mut h = handler();
    h.on_pad_added(5, probe(true, 77));
    bridge(&mut h, 1, "1-1");
    let a = h.on_pad_added(6, copy_probe());
    assert!(a.is_empty());
    assert_eq!(h.devices().len(), 1);
    assert!(h.source(6).is_none());
    h.on_pad_added(7, probe(true, 0));
    assert_eq!(h.devices().get(1).id, 2);
}

#[test]
fn a_copy_removes_the_joystick_entry_of_its_source() {
    let mut h = handler();
    h.on_pad_added(5, probe(true, 77));
    bridge(&mut h, 1, "1-1");
    h.on_pad_added(6, probe(false, 0));
    assert_eq!(h.devices().len(), 2);
    let a = h.on_pad_added(6, copy_probe());
    assert_eq!(show(&a), vec!["ReleaseHandle { source_id: 6 }"]);
    assert_eq!(h.devices().len(), 1);
    assert_eq!(h.devices().get(0).id, 1);
    assert!(h.source(6).is_none());
}

#[test]
fn a_gamepad_with_unknown_ids_is_a_copy_only_of_unknown_ids() {
    let mut h = handler();
    h.on_pad_added(5, probe(true, 77));
    bridge(&mut h, 1, "1-1");
    let bare = SourceProbe { vendor_id: None, product_id: None, path: None, ..probe(true, 0) };
    let a = h.on_pad_added(8, bare);
    assert_eq!(a.len(), 1);
    assert_eq!(h.devices().len(), 2);
}

#[test]
fn removal_by_api_and_last_source() {
    let mut h = handler();
    h.on_pad_added(5, probe(false, 0));
    h.on_pad_added(5, probe(true, 0));
    let a = h.on_pad_removed(5, true);
    assert_eq!(show(&a), vec!["ReleaseHandle { source_id: 5 }"]);
    assert_eq!(h.devices().len(), 1);
    assert_eq!(h.devices().get(0).sdl_device_infos.len(), 1);
    assert!(h.devices().get(0).sdl_device_infos[0].is_gamepad);
    let b = h.on_pad_removed(5, true);
    assert_eq!(b.len(), 1);
    assert_eq!(h.devices().len(), 1);
    let c = h.on_pad_removed(5, false);
    assert_eq!(c.len(), 1);
    assert_eq!(h.devices().len(), 0);
    assert!(h.source(5).is_none());
    let d = h.on_pad_removed(5, false);
    assert_eq!(show(&d), vec!["ReleaseHandle { source_id: 5 }"]);
}

#[test]
fn interleaved_adds_and_removes_keep_registry_and_index_in_step() {
    let mut h = handler();
    let mut present = [false; 4];
    let script: [(u32, bool); 12] = [
        (0, true),
        (1, true),
        (0, false),
        (2, true),
        (1, false),
        (1, true),
        (3, true),
        (2, false),
        (0, true),
        (3, false),
        (0, false),
        (1, false),
    ];
    for (which, add) in script {
        if add {
            h.on_pad_added(which, probe(true, 0));
        } else {
            h.on_pad_removed(which, false);
        }
        present[which as usize] = add;
        let count = present.iter().filter(|p| **p).count();
        assert_eq!(h.devices().len(), count);
        for s in 0..4u32 {
            let owners = (0..h.devices().len())
                .filter(|i| h.devices().get(*i).sdl_ids.contains(&s))
                .count();
            assert_eq!(owners, if present[s as usize] { 1 } else { 0 });
            assert_eq!(h.source(s).is_some(), present[s as usize]);
        }
        for i in 0..h.devices().len() {
            assert!(!h.devices().get(i).sdl_ids.is_empty());
        }
    }
}

#[test]
fn end_to_end() {
    let mut h = handler();
    let added = h.on_pad_added(5, probe(true, 0));
    assert_eq!(show(&added), vec!["StoreHandle { source_id: 5 }"]);
    assert_eq!(h.devices().len(), 1);
    assert!(h.devices().get(0).viiper_device.is_none());

    let refreshed = h.on_steam_handle_updated(Some(vec![HandleReading {
        instance_id: Some(5),
        steam_handle: 99,
    }]));
    assert_eq!(refreshed.len(), 2);
    assert!(matches!(refreshed[0], Action::Bridge(BridgeRequest::Create { device_id: 1, .. })));
    assert!(matches!(refreshed[1], Action::Redraw));
    assert_eq!(h.devices().get(0).steam_handle, 99);

    let (mut task, _) = h.start_create(1, "xbox360".to_string());
    h.continue_create(&mut task, ServerReply::BusCreated(3));
    let created = match h.continue_create(&mut task, ServerReply::DeviceAdded(remote("3-1"))) {
        TaskStep::Done(event) => event,
        other => panic!("{:?}", other),
    };
    let actions = h.on_viiper_event(created);
    assert_eq!(
        show(&actions),
        vec!["Bridge(Connect { device_id: 1, bus_id: 1, dev_id: \"3-1\" })", "Redraw"]
    );
    assert_eq!(h.devices().get(0).viiper_device.as_ref().unwrap().dev_id, "3-1");
    assert!(!h.devices().get(0).viiper_connected);

    let connected = h.connect_finished(1, true);
    let actions = h.on_viiper_event(connected);
    assert_eq!(
        show(&actions),
        vec![
            "OpenSteamUrl { url: \"steam://forceinputappid/3\", activating: true }",
            "Redraw"
        ]
    );
    assert!(h.devices().get(0).viiper_connected);
    h.on_steam_url_opened(true, true);
    assert!(h.enforcer().is_active());

    assert!(h.on_update_complete(5, Some(snapshot())));
    assert_eq!(h.source(5).unwrap().state.input.buttons, 4096);
    match h.next_frame(1) {
        StreamPoll::Frame(bytes) => {
            assert_eq!(&bytes[0..6], &[0, 0x10, 0, 0, 255, 0]);
            assert_eq!(&bytes[6..10], &[10, 0, 0xec, 0xff]);
        }
        other => panic!("{:?}", other),
    }

    let actions = h.on_viiper_event(ViiperEvent::ServerDisconnected { device_id: 1 });
    assert_eq!(
        show(&actions),
        vec!["OpenSteamUrl { url: \"steam://forceinputappid/0\", activating: false }"]
    );
    h.on_steam_url_opened(false, true);
    assert!(!h.enforcer().is_active());
    assert_eq!(h.devices().len(), 1);
    assert!(h.devices().get(0).viiper_device.is_none());
    assert!(!h.devices().get(0).viiper_connected);
    assert_eq!(h.devices().get(0).sdl_ids, vec![5]);
    assert!(!h.bridge().has_stream(1));

    let actions = h.on_pad_removed(5, false);
    assert_eq!(show(&actions), vec!["ReleaseHandle { source_id: 5 }"]);
    assert_eq!(h.devices().len(), 0);
    assert!(h.source(5).is_none());
}

#[test]
fn removing_the_last_bound_device_releases_the_bindings() {
    let mut h = handler();
    h.on_pad_added(5, probe(true, 77));
    h.on_pad_added(6, probe(true, 78));
    bridge(&mut h, 1, "1-1");
    h.on_steam_url_opened(true, true);
    bridge(&mut h, 2, "1-2");
    let a = h.on_pad_removed(5, false);
    assert_eq!(show(&a), vec!["ReleaseHandle { source_id: 5 }"]);
    assert!(!h.bridge().has_stream(1));
    assert!(h.bridge().has_stream(2));
    let b = h.on_pad_removed(6, false);
    assert_eq!(
        show(&b),
        vec![
            "ReleaseHandle { source_id: 6 }",
            "OpenSteamUrl { url: \"steam://forceinputappid/0\", activating: false }"
        ]
    );
    assert!(!h.bridge().has_stream(2));
}

#[test]
fn refresh_updates_handles_and_creates_only_with_a_handle() {
    let mut h = handler();
    h.on_pad_added(5, probe(true, 0));
    h.on_pad_added(6, probe(true, 0));
    assert!(h.on_steam_handle_updated(None).is_empty());
    let a = h.on_steam_handle_updated(Some(vec![]));
    assert_eq!(show(&a), vec!["Redraw"]);
    let b = h.on_steam_handle_updated(Some(vec![
        HandleReading { instance_id: None, steam_handle: 5 },
        HandleReading { instance_id: Some(6), steam_handle: 0 },
        HandleReading { instance_id: Some(44), steam_handle: 9 },
        HandleReading { instance_id: Some(5), steam_handle: 31 },
    ]));
    assert_eq!(creates(&b), vec![1]);
    assert!(matches!(b[b.len() - 1], Action::Redraw));
    assert_eq!(h.devices().get(0).steam_handle, 31);
    assert_eq!(h.devices().get(1).steam_handle, 0);
    bridge(&mut h, 1, "1-1");
    let c = h.on_steam_handle_updated(Some(vec![HandleReading {
        instance_id: Some(5),
        steam_handle: 32,
    }]));
    assert_eq!(show(&c), vec!["Redraw"]);
    assert_eq!(h.devices().get(0).steam_handle, 32);
}

#[test]
fn updates_are_skipped_while_the_overlay_is_open() {
    let mut h = handler();
    h.on_pad_added(5, probe(true, 77));
    bridge(&mut h, 1, "1-1");
    let a = h.on_overlay_state_changed(true);
    assert_eq!(
        show(&a),
        vec!["SetContinuousRedraw { on: true, delay_ms: 0 }", "Window(OverlayStateChanged(true))"]
    );
    assert!(h.steam_overlay_open());
    assert!(!h.on_update_complete(5, Some(snapshot())));
    assert_eq!(h.bridge().pending(1), Some(0));
    assert_eq!(h.source(5).unwrap().state.input.buttons, 0);
    let b = h.on_overlay_state_changed(false);
    assert_eq!(
        show(&b),
        vec![
            "SetContinuousRedraw { on: false, delay_ms: 1000 }",
            "Window(OverlayStateChanged(false))"
        ]
    );
    assert!(h.on_update_complete(5, Some(snapshot())));
    assert_eq!(h.bridge().pending(1), Some(1));
}

#[test]
fn updates_need_a_source_a_gamepad_and_a_stream() {
    let mut h = handler();
    assert!(!h.on_update_complete(5, Some(snapshot())));
    h.on_pad_added(5, probe(true, 77));
    assert!(!h.on_update_complete(5, None));
    assert_eq!(h.source(5).unwrap().state.input.buttons, 0);
    assert!(!h.on_update_complete(5, Some(snapshot())));
    assert_eq!(h.source(5).unwrap().state.input.buttons, 4096);
    assert_eq!(h.bridge().pending(1), None);
}

#[test]
fn overlay_events_are_ignored_with_continuous_redraw_configured() {
    let (mut h, _) = EventHandler::new(true, false, BindingEnforcer::new(None), true);
    assert!(h.on_overlay_state_changed(true).is_empty());
    assert!(!h.steam_overlay_open());
}

#[test]
fn stale_events_are_discarded() {
    let mut h = handler();
    assert!(h.on_viiper_event(ViiperEvent::DeviceCreated { device_id: 9, viiper_device: remote("x") })
        .is_empty());
    h.connect_finished(9, true);
    assert!(h.bridge().has_stream(9));
    assert!(h.on_viiper_event(ViiperEvent::DeviceConnected { device_id: 9 }).is_empty());
    assert!(!h.bridge().has_stream(9));
    assert!(h.on_viiper_event(ViiperEvent::DeviceRumble { device_id: 9, l: 1, r: 2 }).is_empty());
    assert!(h.on_viiper_event(ViiperEvent::ServerDisconnected { device_id: 9 }).is_empty());
    assert_eq!(h.devices().len(), 0);
    h.on_pad_added(5, probe(true, 0));
    h.connect_finished(1, true);
    assert!(h.on_viiper_event(ViiperEvent::DeviceConnected { device_id: 1 }).is_empty());
    assert!(!h.devices().get(0).viiper_connected);
    assert!(!h.bridge().has_stream(1));
}

#[test]
fn rumble_is_scaled_to_sixteen_bits() {
    let mut h = handler();
    h.on_pad_added(5, probe(true, 77));
    let a = h.on_viiper_event(ViiperEvent::DeviceRumble { device_id: 1, l: 255, r: 1 });
    assert_eq!(
        show(&a),
        vec![
            "Rumble { source_id: 5, low_frequency: 65535, high_frequency: 257, duration_ms: 10000 }",
            "Redraw"
        ]
    );
    let (mut k, _) = EventHandler::new(true, true, BindingEnforcer::new(None), false);
    assert!(k.on_viiper_event(ViiperEvent::DeviceRumble { device_id: 1, l: 1, r: 1 }).is_empty());
}

#[test]
fn connect_errors_ask_for_a_redraw_only() {
    let mut h = handler();
    h.on_pad_added(5, probe(true, 77));
    let a = h.on_viiper_event(ViiperEvent::ErrorConnectDevice { device_id: 1 });
    assert_eq!(show(&a), vec!["Redraw"]);
    assert!(!h.devices().get(0).viiper_connected);
}

#[test]
fn a_device_without_handle_does_not_force_bindings() {
    let (mut h, _) = EventHandler::new(true, true, BindingEnforcer::new(Some("12884901890")), false);
    bridge(&mut h, 1, "1-1");
    assert!(h.devices().get(0).viiper_connected);
    assert!(!h.enforcer().is_active());
    let a = h.on_viiper_event(ViiperEvent::ServerDisconnected { device_id: 1 });
    assert!(a.is_empty());
}

#[test]
fn emulation_switch() {
    let mut h = handler();
    h.on_pad_added(5, probe(true, 0));
    assert!(h.set_kbm_emulation_enabled(false).is_empty());
    let a = h.set_kbm_emulation_enabled(true);
    assert_eq!(a.len(), 4);
    assert!(matches!(a[0], Action::Window(RunnerEvent::SetKbmCursorGrab(true))));
    assert!(matches!(a[1], Action::ShowKbmNotice));
    assert_eq!(creates(&a), vec![2, 3]);
    assert_eq!(h.devices().len(), 3);
    assert_eq!(h.devices().get(1).viiper_type, "keyboard");
    assert_eq!(h.devices().get(2).viiper_type, "mouse");
    assert!(h.set_kbm_emulation_enabled(true).is_empty());
    h.connect_finished(2, true);
    let b = h.set_kbm_emulation_enabled(false);
    assert_eq!(show(&b), vec!["Window(SetKbmCursorGrab(false))"]);
    assert_eq!(h.devices().len(), 1);
    assert_eq!(h.devices().get(0).id, 1);
    assert!(!h.bridge().has_stream(2));
    let c = h.set_kbm_emulation_enabled(true);
    assert_eq!(creates(&c), vec![4, 5]);
}

#[test]
fn emulation_switch_keeps_an_existing_keyboard() {
    let (mut h, _) = EventHandler::new(true, true, BindingEnforcer::new(None), false);
    h.set_kbm_emulation_enabled(false);
    assert_eq!(h.devices().len(), 0);
    h.set_kbm_emulation_enabled(true);
    h.ignore_device(4);
    assert_eq!(h.devices().len(), 1);
    h.set_kbm_emulation_enabled(false);
    let (mut g, _) = EventHandler::new(true, true, BindingEnforcer::new(None), false);
    g.ignore_device(2);
    g.set_kbm_emulation_enabled(false);
    let (mut k, _) = EventHandler::new(true, false, BindingEnforcer::new(None), false);
    k.set_kbm_emulation_enabled(true);
    k.ignore_device(2);
    k.set_kbm_emulation_enabled(false);
    k.set_kbm_emulation_enabled(true);
    assert_eq!(k.devices().len(), 2);
}

#[test]
fn an_ignored_device_stays_away() {
    let mut h = handler();
    h.on_pad_added(5, probe(true, 0));
    h.ignore_device(1);
    h.ignore_device(1);
    assert_eq!(h.devices().len(), 0);
    assert_eq!(h.source(5).unwrap().device_id, 1);
    let a = h.on_pad_added(5, probe(true, 77));
    assert_eq!(show(&a), vec!["StoreHandle { source_id: 5 }"]);
    assert_eq!(h.devices().len(), 0);
    let b = h.on_pad_removed(5, false);
    assert_eq!(show(&b), vec!["ReleaseHandle { source_id: 5 }"]);
    assert!(h.source(5).is_some());
}

#[test]
fn user_requests_to_connect_and_disconnect() {
    let mut h = handler();
    assert!(h.connect_viiper_device(1).is_empty());
    h.on_pad_added(5, probe(true, 0));
    assert!(h.connect_viiper_device(1).is_empty());
    h.on_steam_handle_updated(Some(vec![HandleReading { instance_id: Some(5), steam_handle: 9 }]));
    let a = h.connect_viiper_device(1);
    assert_eq!(creates(&a), vec![1]);
    assert!(matches!(a[1], Action::Redraw));
    h.disconnect_viiper_device(1);
    bridge(&mut h, 1, "1-1");
    assert!(h.connect_viiper_device(1).is_empty());
    assert!(h.bridge().has_stream(1));
    h.disconnect_viiper_device(1);
    assert!(!h.bridge().has_stream(1));
    assert!(h.devices().get(0).viiper_connected);
    h.disconnect_viiper_device(7);
}

#[test]
fn readiness_creates_what_is_due_in_order() {
    let (mut h, _) = EventHandler::new(true, true, BindingEnforcer::new(None), false);
    h.on_pad_added(5, probe(true, 0));
    h.on_pad_added(6, probe(true, 8));
    h.on_pad_added(7, probe(true, 9));
    bridge(&mut h, 5, "1-5");
    let a = h.on_viiper_ready("0.4.2".to_string());
    assert!(matches!(a[0], Action::Redraw));
    assert_eq!(creates(&a), vec![1, 2, 4]);
    assert_eq!(a.len(), 4);
    assert!(h.viiper_ready());
    assert_eq!(h.viiper_version().as_deref(), Some("0.4.2"));
}

#[test]
fn debug_port_leads_to_the_overlay_notifier() {
    let mut h = handler();
    let a = h.on_cef_debug_ready(8080, false, true);
    assert_eq!(show(&a), vec!["Redraw", "InjectOverlayNotifier { delay_secs: 0 }"]);
    let b = h.on_cef_debug_ready(8081, false, false);
    assert_eq!(show(&b), vec!["Redraw", "InjectOverlayNotifier { delay_secs: 5 }"]);
    let c = h.on_cef_debug_ready(8082, true, false);
    assert_eq!(show(&c), vec!["Redraw"]);
    assert_eq!(h.cef_debug_port(), Some(8082));
}

#[test]
fn a_failed_url_leaves_enforcement_as_it_was() {
    let mut h = handler();
    h.on_pad_added(5, probe(true, 77));
    bridge(&mut h, 1, "1-1");
    h.on_steam_url_opened(true, false);
    assert!(!h.enforcer().is_active());
    h.on_pad_added(6, probe(true, 78));
    bridge(&mut h, 2, "1-2");
    h.on_steam_url_opened(true, true);
    assert!(h.enforcer().is_active());
    let a = h.on_viiper_event(ViiperEvent::ServerDisconnected { device_id: 1 });
    assert!(a.is_empty());
}

#[test]
fn events_are_routed_to_their_functions() {
    let around = Surroundings { continuous_redraw: false, launched_via_steam: true };
    let mut h = handler();
    let r = h.process_one(InputEvent::PadAdded { which: 5, probe: probe(true, 77) }, around);
    assert!(!r.quit && r.redraw);
    assert_eq!(creates(&r.actions), vec![1]);
    let r = h.process_one(InputEvent::Other, around);
    assert!(!r.quit && !r.redraw && r.actions.is_empty());
    let r = h.process_one(
        InputEvent::UpdateComplete { which: 5, snapshot: Some(snapshot()) },
        around,
    );
    assert!(!r.quit && !r.redraw && r.actions.is_empty());
    assert_eq!(h.source(5).unwrap().state.input.buttons, 4096);
    let r = h.process_one(InputEvent::SteamHandleUpdated { readings: Some(vec![]) }, around);
    assert!(r.redraw);
    assert_eq!(show(&r.actions), vec!["Redraw"]);
    let r = h.process_one(
        InputEvent::Handler(HandlerEvent::CefDebugReady { port: 9 }),
        around,
    );
    assert!(!r.redraw);
    assert_eq!(show(&r.actions), vec!["Redraw", "InjectOverlayNotifier { delay_secs: 0 }"]);
    let r = h.process_one(
        InputEvent::Handler(HandlerEvent::ViiperReady { version: "1.0".to_string() }),
        around,
    );
    assert_eq!(creates(&r.actions), vec![1]);
    let r = h.process_one(
        InputEvent::Handler(HandlerEvent::ConnectViiperDevice { device_id: 1 }),
        around,
    );
    assert_eq!(creates(&r.actions), vec![1]);
    let r = h.process_one(
        InputEvent::Handler(HandlerEvent::OverlayStateChanged { open: true }),
        around,
    );
    assert_eq!(r.actions.len(), 2);
    let r = h.process_one(
        InputEvent::Handler(HandlerEvent::SetKbmEmulationEnabled { enabled: true }),
        around,
    );
    assert_eq!(creates(&r.actions), vec![2, 3]);
    let r = h.process_one(
        InputEvent::Handler(HandlerEvent::ViiperEvent(ViiperEvent::ErrorCreateDevice {
            device_id: 1,
        })),
        around,
    );
    assert_eq!(show(&r.actions), vec!["Redraw"]);
    h.process_one(InputEvent::Handler(HandlerEvent::DisconnectViiperDevice { device_id: 1 }), around);
    h.process_one(InputEvent::Handler(HandlerEvent::IgnoreDevice { device_id: 2 }), around);
    assert_eq!(h.devices().len(), 2);
    let r = h.process_one(InputEvent::PadRemoved { which: 5, is_joystick: false }, around);
    assert!(r.redraw);
    assert_eq!(h.devices().len(), 1);
    let r = h.process_one(InputEvent::Quit, around);
    assert!(r.quit && !r.redraw && r.actions.is_empty());
}

#[test]
fn a_source_that_is_told_to_be_a_copy_is_discarded() {
    let mut h = handler();
    assert!(h.add_source(5, probe(true, 77), true).is_empty());
    assert_eq!(h.devices().len(), 0);
    let a = h.add_source(5, probe(false, 0), false);
    assert_eq!(show(&a), vec!["StoreHandle { source_id: 5 }"]);
    let b = h.add_source(5, probe(true, 77), true);
    assert_eq!(show(&b), vec!["ReleaseHandle { source_id: 5 }"]);
    assert_eq!(h.devices().len(), 0);
    let c = h.add_source(6, probe(true, 77), false);
    assert_eq!(creates(&c), vec![2]);
}
