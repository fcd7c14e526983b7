use sisr::bridge::{
    bus_listed, output_event, BridgeRequest, CreatePhase, ServerCall, ServerReply, StreamPoll,
    TaskStep, ViiperBridge, ViiperEvent,
};
use sisr::device::{Device, DeviceState, ViiperDevice, Xbox360Input};

fn remote(bus: u32, dev: &str) -> ViiperDevice {
    ViiperDevice {
        bus_id: bus,
        dev_id: dev.to_string(),
        vid: "0x045e".to_string(),
        pid: "0x028e".to_string(),
        device_type: "xbox360".to_string(),
    }
}

fn input(buttons: u32) -> DeviceState {
    DeviceState {
        input: Xbox360Input { buttons, lt: 1, rt: 2, lx: 3, ly: -4, rx: 0x1234, ry: -32768 },
    }
}

#[test]
fn create_without_server_fails_at_once() {
    let bridge = ViiperBridge::new(false);
    let d = Device::new(4, "xbox360");
    match bridge.create_device(&d) {
        BridgeRequest::Emit(ViiperEvent::ErrorCreateDevice { device_id }) => assert_eq!(device_id, 4),
        other => panic!("{:?}", other),
    }
}

#[test]
fn create_with_server_asks_for_a_task() {
    let bridge = ViiperBridge::new(true);
    let d = Device::new(4, "keyboard");
    match bridge.create_device(&d) {
        BridgeRequest::Create { device_id, device_type } => {
            assert_eq!(device_id, 4);
            assert_eq!(device_type, "keyboard");
        }
        other => panic!("{:?}", other),
    }
}

#[test]
fn connect_needs_a_virtual_device_and_a_server() {
    let with = ViiperBridge::new(true);
    let without = ViiperBridge::new(false);
    let mut d = Device::new(4, "xbox360");
    assert!(matches!(
        with.connect_device(&d),
        BridgeRequest::Emit(ViiperEvent::ErrorConnectDevice { device_id: 4 })
    ));
    d.viiper_device = Some(remote(2, "2-1"));
    assert!(matches!(
        without.connect_device(&d),
        BridgeRequest::Emit(ViiperEvent::ErrorConnectDevice { device_id: 4 })
    ));
    match with.connect_device(&d) {
        BridgeRequest::Connect { device_id, bus_id, dev_id } => {
            assert_eq!((device_id, bus_id, dev_id.as_str()), (4, 2, "2-1"));
        }
        other => panic!("{:?}", other),
    }
}

#[test]
fn first_task_creates_the_bus_and_caches_it() {
    let mut bridge = ViiperBridge::new(true);
    assert_eq!(bridge.bus_id(), None);
    let (mut task, call) = bridge.start_create(1, "xbox360".to_string());
    assert!(matches!(call, ServerCall::CreateBus));
    assert_eq!(task.phase, CreatePhase::CreatingBus);
    match bridge.continue_create(&mut task, ServerReply::BusCreated(7)) {
        TaskStep::Call(ServerCall::AddDevice { bus_id, device_type }) => {
            assert_eq!(bus_id, 7);
            assert_eq!(device_type, "xbox360");
        }
        other => panic!("{:?}", other),
    }
    assert_eq!(bridge.bus_id(), Some(7));
    match bridge.continue_create(&mut task, ServerReply::DeviceAdded(remote(7, "7-1"))) {
        TaskStep::Done(ViiperEvent::DeviceCreated { device_id, viiper_device }) => {
            assert_eq!(device_id, 1);
            assert_eq!(viiper_device.dev_id, "7-1");
        }
        other => panic!("{:?}", other),
    }
    assert_eq!(task.phase, CreatePhase::Finished);
}

#[test]
fn cached_bus_that_is_listed_is_used_without_creating_one() {
    let mut bridge = ViiperBridge::new(true);
    let (mut first, _) = bridge.start_create(1, "xbox360".to_string());
    bridge.continue_create(&mut first, ServerReply::BusCreated(7));
    let (mut task, call) = bridge.start_create(2, "mouse".to_string());
    assert!(matches!(call, ServerCall::ListBuses));
    assert_eq!(task.phase, CreatePhase::ListingBuses { cached: 7 });
    match bridge.continue_create(&mut task, ServerReply::Buses(vec![3, 7, 9])) {
        TaskStep::Call(ServerCall::AddDevice { bus_id, device_type }) => {
            assert_eq!(bus_id, 7);
            assert_eq!(device_type, "mouse");
        }
        other => panic!("{:?}", other),
    }
    assert_eq!(bridge.bus_id(), Some(7));
}

#[test]
fn stale_bus_is_replaced_by_exactly_one_new_bus() {
    let mut bridge = ViiperBridge::new(true);
    let (mut first, _) = bridge.start_create(1, "xbox360".to_string());
    bridge.continue_create(&mut first, ServerReply::BusCreated(7));
    let (mut task, call) = bridge.start_create(2, "xbox360".to_string());
    assert!(matches!(call, ServerCall::ListBuses));
    let step = bridge.continue_create(&mut task, ServerReply::Buses(vec![3, 9]));
    assert!(matches!(step, TaskStep::Call(ServerCall::CreateBus)));
    assert_eq!(bridge.bus_id(), Some(7));
    let step = bridge.continue_create(&mut task, ServerReply::BusCreated(11));
    assert!(matches!(step, TaskStep::Call(ServerCall::AddDevice { bus_id: 11, .. })));
    assert_eq!(bridge.bus_id(), Some(11));
    let step = bridge.continue_create(&mut task, ServerReply::DeviceAdded(remote(11, "11-1")));
    assert!(matches!(step, TaskStep::Done(ViiperEvent::DeviceCreated { device_id: 2, .. })));
}

#[test]
fn failures_end_the_task_with_the_error_event() {
    let mut bridge = ViiperBridge::new(true);
    let (mut task, _) = bridge.start_create(5, "xbox360".to_string());
    let step = bridge.continue_create(&mut task, ServerReply::Failed);
    assert!(matches!(step, TaskStep::Done(ViiperEvent::ErrorCreateDevice { device_id: 5 })));
    assert_eq!(task.phase, CreatePhase::Finished);
    assert_eq!(bridge.bus_id(), None);
    let step = bridge.continue_create(&mut task, ServerReply::BusCreated(1));
    assert!(matches!(step, TaskStep::Done(ViiperEvent::ErrorCreateDevice { device_id: 5 })));
    assert_eq!(bridge.bus_id(), None);

    let (mut task, _) = bridge.start_create(6, "xbox360".to_string());
    bridge.continue_create(&mut task, ServerReply::BusCreated(4));
    let step = bridge.continue_create(&mut task, ServerReply::Failed);
    assert!(matches!(step, TaskStep::Done(ViiperEvent::ErrorCreateDevice { device_id: 6 })));
    assert_eq!(bridge.bus_id(), Some(4));

    let (mut task, _) = bridge.start_create(7, "xbox360".to_string());
    let step = bridge.continue_create(&mut task, ServerReply::Failed);
    assert!(matches!(step, TaskStep::Done(ViiperEvent::ErrorCreateDevice { device_id: 7 })));
    let (mut task, _) = bridge.start_create(8, "xbox360".to_string());
    let step = bridge.continue_create(&mut task, ServerReply::DeviceAdded(remote(4, "x")));
    assert!(matches!(step, TaskStep::Done(ViiperEvent::ErrorCreateDevice { device_id: 8 })));
}

#[test]
fn update_without_stream_changes_nothing() {
    let mut bridge = ViiperBridge::new(true);
    assert!(!bridge.update_device_state(3, &input(1)));
    assert!(!bridge.has_stream(3));
    assert_eq!(bridge.pending(3), None);
    assert!(matches!(bridge.next_frame(3), StreamPoll::Closed));
}

#[test]
fn reports_are_queued_in_order_and_framed() {
    let mut bridge = ViiperBridge::new(true);
    assert!(matches!(
        bridge.connect_finished(3, false),
        ViiperEvent::ErrorConnectDevice { device_id: 3 }
    ));
    assert!(!bridge.has_stream(3));
    assert!(matches!(
        bridge.connect_finished(3, true),
        ViiperEvent::DeviceConnected { device_id: 3 }
    ));
    assert!(bridge.has_stream(3));
    assert!(matches!(bridge.next_frame(3), StreamPoll::Idle));
    assert!(bridge.update_device_state(3, &input(0x0102_0304)));
    assert!(bridge.update_device_state(3, &input(5)));
    assert!(!bridge.update_device_state(4, &input(5)));
    assert_eq!(bridge.pending(3), Some(2));
    match bridge.next_frame(3) {
        StreamPoll::Frame(bytes) => assert_eq!(
            bytes,
            vec![4, 3, 2, 1, 1, 2, 3, 0, 0xfc, 0xff, 0x34, 0x12, 0, 0x80, 0, 0, 0, 0, 0, 0]
        ),
        other => panic!("{:?}", other),
    }
    match bridge.next_frame(3) {
        StreamPoll::Frame(bytes) => {
            assert_eq!(bytes.len(), 20);
            assert_eq!(&bytes[0..4], &[5, 0, 0, 0]);
        }
        other => panic!("{:?}", other),
    }
    assert!(matches!(bridge.next_frame(3), StreamPoll::Idle));
    assert_eq!(bridge.pending(3), Some(0));
}

#[test]
fn removing_a_device_drops_its_queue() {
    let mut bridge = ViiperBridge::new(true);
    bridge.connect_finished(3, true);
    bridge.connect_finished(4, true);
    bridge.update_device_state(3, &input(1));
    bridge.update_device_state(4, &input(2));
    assert!(bridge.remove_device(3));
    assert!(!bridge.remove_device(3));
    assert!(matches!(bridge.next_frame(3), StreamPoll::Closed));
    assert_eq!(bridge.pending(4), Some(1));
    bridge.connect_finished(4, true);
    assert_eq!(bridge.pending(4), Some(0));
}

#[test]
fn output_frames_carry_rumble() {
    assert!(matches!(
        output_event(9, &vec![200, 17]),
        ViiperEvent::DeviceRumble { device_id: 9, l: 200, r: 17 }
    ));
    assert!(matches!(output_event(9, &vec![1]), ViiperEvent::ServerDisconnected { device_id: 9 }));
    assert!(matches!(output_event(9, &vec![]), ViiperEvent::ServerDisconnected { device_id: 9 }));
    assert!(matches!(
        output_event(9, &vec![1, 2, 3]),
        ViiperEvent::ServerDisconnected { device_id: 9 }
    ));
}

#[test]
fn bus_listing_is_searched() {
    assert!(bus_listed(&vec![1, 2, 3], 3));
    assert!(!bus_listed(&vec![1, 2, 3], 4));
    assert!(!bus_listed(&vec![], 0));
}
