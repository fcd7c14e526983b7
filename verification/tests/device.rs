use sisr::device::{
    flip_axis, trigger_byte, Device, DeviceState, GamepadSnapshot, Xbox360Input, BUTTON_A,
    BUTTON_B, BUTTON_BACK, BUTTON_D_PAD_DOWN, BUTTON_D_PAD_LEFT, BUTTON_D_PAD_RIGHT,
    BUTTON_D_PAD_UP, BUTTON_GUIDE, BUTTON_L_SHOULDER, BUTTON_L_THUMB, BUTTON_R_SHOULDER,
    BUTTON_R_THUMB, BUTTON_START, BUTTON_X, BUTTON_Y, OUTPUT_SIZE,
};
use viiper_client::devices::xbox360;

fn at_rest() -> GamepadSnapshot {
    GamepadSnapshot {
        south: false,
        east: false,
        west: false,
        north: false,
        start: false,
        back: false,
        left_stick: false,
        right_stick: false,
        left_shoulder: false,
        right_shoulder: false,
        guide: false,
        dpad_up: false,
        dpad_down: false,
        dpad_left: false,
        dpad_right: false,
        trigger_left: 0,
        trigger_right: 0,
        left_x: 0,
        left_y: 0,
        right_x: 0,
        right_y: 0,
    }
}

#[test]
fn button_flags_are_those_of_the_wire_protocol() {
    assert_eq!(BUTTON_A, xbox360::BUTTON_A as u32);
    assert_eq!(BUTTON_B, xbox360::BUTTON_B as u32);
    assert_eq!(BUTTON_X, xbox360::BUTTON_X as u32);
    assert_eq!(BUTTON_Y, xbox360::BUTTON_Y as u32);
    assert_eq!(BUTTON_START, xbox360::BUTTON_START as u32);
    assert_eq!(BUTTON_BACK, xbox360::BUTTON_BACK as u32);
    assert_eq!(BUTTON_L_THUMB, xbox360::BUTTON_L_THUMB as u32);
    assert_eq!(BUTTON_R_THUMB, xbox360::BUTTON_R_THUMB as u32);
    assert_eq!(BUTTON_L_SHOULDER, xbox360::BUTTON_L_SHOULDER as u32);
    assert_eq!(BUTTON_R_SHOULDER, xbox360::BUTTON_R_SHOULDER as u32);
    assert_eq!(BUTTON_GUIDE, xbox360::BUTTON_GUIDE as u32);
    assert_eq!(BUTTON_D_PAD_UP, xbox360::BUTTON_D_PAD_UP as u32);
    assert_eq!(BUTTON_D_PAD_DOWN, xbox360::BUTTON_D_PAD_DOWN as u32);
    assert_eq!(BUTTON_D_PAD_LEFT, xbox360::BUTTON_D_PAD_LEFT as u32);
    assert_eq!(BUTTON_D_PAD_RIGHT, xbox360::BUTTON_D_PAD_RIGHT as u32);
    assert_eq!(OUTPUT_SIZE, xbox360::OUTPUT_SIZE);
}

#[test]
fn a_pad_at_rest_gives_the_rest_report() {
    let mut state = DeviceState::new();
    state.update_from_sdl_gamepad(&at_rest());
    assert_eq!(state.input, Xbox360Input::new());
    assert_eq!(state.input.buttons, 0);
}

#[test]
fn each_button_sets_its_flag() {
    let mut state = DeviceState::new();
    let mut gp = at_rest();
    gp.south = true;
    gp.dpad_left = true;
    gp.guide = true;
    state.update_from_sdl_gamepad(&gp);
    assert_eq!(state.input.buttons, 4096 | 4 | 1024);

    let mut all = at_rest();
    all.south = true;
    all.east = true;
    all.west = true;
    all.north = true;
    all.start = true;
    all.back = true;
    all.left_stick = true;
    all.right_stick = true;
    all.left_shoulder = true;
    all.right_shoulder = true;
    all.guide = true;
    all.dpad_up = true;
    all.dpad_down = true;
    all.dpad_left = true;
    all.dpad_right = true;
    state.update_from_sdl_gamepad(&all);
    assert_eq!(state.input.buttons, 0xF7FF);
}

#[test]
fn an_update_replaces_the_earlier_report() {
    let mut state = DeviceState::new();
    let mut gp = at_rest();
    gp.north = true;
    gp.left_x = 1200;
    state.update_from_sdl_gamepad(&gp);
    assert_eq!(state.input.buttons, 32768);
    assert_eq!(state.input.lx, 1200);
    state.update_from_sdl_gamepad(&at_rest());
    assert_eq!(state.input.buttons, 0);
    assert_eq!(state.input.lx, 0);
}

#[test]
fn triggers_scale_to_a_byte() {
    assert_eq!(trigger_byte(0), 0);
    assert_eq!(trigger_byte(-5), 0);
    assert_eq!(trigger_byte(i16::MIN), 0);
    assert_eq!(trigger_byte(32767), 255);
    assert_eq!(trigger_byte(16384), 127);
    assert_eq!(trigger_byte(128), 0);
    assert_eq!(trigger_byte(129), 1);
}

#[test]
fn vertical_axes_are_flipped_and_saturate() {
    assert_eq!(flip_axis(100), -100);
    assert_eq!(flip_axis(-100), 100);
    assert_eq!(flip_axis(0), 0);
    assert_eq!(flip_axis(32767), -32767);
    assert_eq!(flip_axis(-32768), 32767);
    let mut state = DeviceState::new();
    let mut gp = at_rest();
    gp.left_y = -32768;
    gp.right_y = 5;
    gp.right_x = -7;
    gp.trigger_left = 32767;
    state.update_from_sdl_gamepad(&gp);
    assert_eq!(state.input.ly, 32767);
    assert_eq!(state.input.ry, -5);
    assert_eq!(state.input.rx, -7);
    assert_eq!(state.input.lt, 255);
    assert_eq!(state.input.rt, 0);
}

#[test]
fn a_new_device_is_blank() {
    let d = Device::new(7, "keyboard");
    assert_eq!(d.id, 7);
    assert_eq!(d.viiper_type, "keyboard");
    assert!(d.sdl_ids.is_empty());
    assert!(d.sdl_device_infos.is_empty());
    assert_eq!(d.steam_handle, 0);
    assert!(d.viiper_device.is_none());
    assert!(!d.viiper_connected);
    assert!(d.emulated());
    assert!(!d.steam_bound());
    assert!(!Device::new(8, "xbox360").emulated());
    assert!(Device::new(9, "mouse").emulated());
}
