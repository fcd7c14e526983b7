//! Logical devices, the virtual devices they are mapped to, and the input
//! report that is streamed for them.

use vstd::prelude::*;
use crate::text::same_text;

verus! {

pub const BUTTON_D_PAD_UP: u32 = 1;

pub const BUTTON_D_PAD_DOWN: u32 = 2;

pub const BUTTON_D_PAD_LEFT: u32 = 4;

pub const BUTTON_D_PAD_RIGHT: u32 = 8;

pub const BUTTON_START: u32 = 16;

pub const BUTTON_BACK: u32 = 32;

pub const BUTTON_L_THUMB: u32 = 64;

pub const BUTTON_R_THUMB: u32 = 128;

pub const BUTTON_L_SHOULDER: u32 = 256;

pub const BUTTON_R_SHOULDER: u32 = 512;

pub const BUTTON_GUIDE: u32 = 1024;

pub const BUTTON_A: u32 = 4096;

pub const BUTTON_B: u32 = 8192;

pub const BUTTON_X: u32 = 16384;

pub const BUTTON_Y: u32 = 32768;

/// Length in bytes of one output frame sent by the server for a controller.
pub const OUTPUT_SIZE: usize = 2;

/// Length in bytes of one input frame sent to the server for a controller.
pub const INPUT_SIZE: usize = 20;

/// How long a rumble request lasts, in milliseconds.
pub const RUMBLE_DURATION_MS: u32 = 10000;

/// What was read from a gamepad at one instant: which buttons are held and
/// where the axes stand (each from -32768 to 32767, down and right positive).
#[derive(Clone, Copy, Debug)]
pub struct GamepadSnapshot {
    pub south: bool,
    pub east: bool,
    pub west: bool,
    pub north: bool,
    pub start: bool,
    pub back: bool,
    pub left_stick: bool,
    pub right_stick: bool,
    pub left_shoulder: bool,
    pub right_shoulder: bool,
    pub guide: bool,
    pub dpad_up: bool,
    pub dpad_down: bool,
    pub dpad_left: bool,
    pub dpad_right: bool,
    pub trigger_left: i16,
    pub trigger_right: i16,
    pub left_x: i16,
    pub left_y: i16,
    pub right_x: i16,
    pub right_y: i16,
}

/// One input report of the emulated controller.
#[derive(Clone, Copy, Debug, PartialEq, Eq, Structural)]
pub struct Xbox360Input {
    pub buttons: u32,
    pub lt: u8,
    pub rt: u8,
    pub lx: i16,
    pub ly: i16,
    pub rx: i16,
    pub ry: i16,
}

/// The live input of one source, as last computed.
#[derive(Clone, Copy, Debug, PartialEq, Eq, Structural)]
pub struct DeviceState {
    pub input: Xbox360Input,
}

/// `bit` where `held`, else no bit.
pub open spec fn flag(held: bool, bit: u32) -> u32 {
    if held {
        bit
    } else {
        0
    }
}

/// The button word of a snapshot: the bitwise or of the flags of the held buttons.
pub open spec fn spec_buttons(gp: GamepadSnapshot) -> u32 {
    flag(gp.south, BUTTON_A) | flag(gp.east, BUTTON_B) | flag(gp.west, BUTTON_X) | flag(
        gp.north,
        BUTTON_Y,
    ) | flag(gp.start, BUTTON_START) | flag(gp.back, BUTTON_BACK) | flag(
        gp.left_stick,
        BUTTON_L_THUMB,
    ) | flag(gp.right_stick, BUTTON_R_THUMB) | flag(gp.left_shoulder, BUTTON_L_SHOULDER) | flag(
        gp.right_shoulder,
        BUTTON_R_SHOULDER,
    ) | flag(gp.guide, BUTTON_GUIDE) | flag(gp.dpad_up, BUTTON_D_PAD_UP) | flag(
        gp.dpad_down,
        BUTTON_D_PAD_DOWN,
    ) | flag(gp.dpad_left, BUTTON_D_PAD_LEFT) | flag(gp.dpad_right, BUTTON_D_PAD_RIGHT)
}

/// A trigger axis scaled to a byte: nothing at or below rest, 255 at full travel.
pub open spec fn spec_trigger(axis: i16) -> u8 {
    if axis <= 0 {
        0
    } else {
        ((axis * 255) / 32767) as u8
    }
}

/// A stick axis turned upside down; the one value without a negative stays at the top.
pub open spec fn spec_flip(axis: i16) -> i16 {
    if axis == -32768 {
        32767
    } else {
        (-axis) as i16
    }
}

/// The input report that a snapshot gives: buttons as flags, triggers as
/// bytes, the vertical stick axes flipped so that up is positive.
pub open spec fn spec_report(gp: GamepadSnapshot) -> Xbox360Input {
    Xbox360Input {
        buttons: spec_buttons(gp),
        lt: spec_trigger(gp.trigger_left),
        rt: spec_trigger(gp.trigger_right),
        lx: gp.left_x,
        ly: spec_flip(gp.left_y),
        rx: gp.right_x,
        ry: spec_flip(gp.right_y),
    }
}

/// `bit` where `held`, else no bit.
fn flag_of(held: bool, bit: u32) -> (r: u32)
    ensures
        r == flag(held, bit),
{
    if held {
        bit
    } else {
        0
    }
}

/// Scales a trigger axis to a byte.
pub fn trigger_byte(axis: i16) -> (r: u8)
    ensures
        r == spec_trigger(axis),
{
    if axis <= 0 {
        0
    } else {
        let wide: i32 = axis as i32;
        let scaled: i32 = (wide * 255) / 32767;
        assert(0 <= scaled <= 255);
        scaled as u8
    }
}

/// Flips a stick axis.
pub fn flip_axis(axis: i16) -> (r: i16)
    ensures
        r == spec_flip(axis),
{
    if axis == -32768 {
        32767
    } else {
        -axis
    }
}

impl Xbox360Input {
    /// The report of a controller at rest.
    pub fn new() -> (r: Self)
        ensures
            r == Self::spec_rest(),
    {
        Xbox360Input { buttons: 0, lt: 0, rt: 0, lx: 0, ly: 0, rx: 0, ry: 0 }
    }

    /// The report of a controller at rest: nothing held, every axis at zero.
    pub open spec fn spec_rest() -> Self {
        Xbox360Input { buttons: 0, lt: 0, rt: 0, lx: 0, ly: 0, rx: 0, ry: 0 }
    }
}

impl Default for Xbox360Input {
    fn default() -> (r: Self)
        ensures
            r == Xbox360Input::spec_rest(),
    {
        Xbox360Input::new()
    }
}

impl DeviceState {
    /// The state of a source of which nothing was read yet.
    pub fn new() -> (r: Self)
        ensures
            r.input == Xbox360Input::spec_rest(),
    {
        DeviceState { input: Xbox360Input::new() }
    }

    /// Replaces the input by the report of `gp`.
    pub fn update_from_sdl_gamepad(&mut self, gp: &GamepadSnapshot)
        ensures
            final(self).input == spec_report(*gp),
    {
        let mut b: u32 = flag_of(gp.south, BUTTON_A);
        b = b | flag_of(gp.east, BUTTON_B);
        b = b | flag_of(gp.west, BUTTON_X);
        b = b | flag_of(gp.north, BUTTON_Y);
        b = b | flag_of(gp.start, BUTTON_START);
        b = b | flag_of(gp.back, BUTTON_BACK);
        b = b | flag_of(gp.left_stick, BUTTON_L_THUMB);
        b = b | flag_of(gp.right_stick, BUTTON_R_THUMB);
        b = b | flag_of(gp.left_shoulder, BUTTON_L_SHOULDER);
        b = b | flag_of(gp.right_shoulder, BUTTON_R_SHOULDER);
        b = b | flag_of(gp.guide, BUTTON_GUIDE);
        b = b | flag_of(gp.dpad_up, BUTTON_D_PAD_UP);
        b = b | flag_of(gp.dpad_down, BUTTON_D_PAD_DOWN);
        b = b | flag_of(gp.dpad_left, BUTTON_D_PAD_LEFT);
        b = b | flag_of(gp.dpad_right, BUTTON_D_PAD_RIGHT);
        self.input = Xbox360Input {
            buttons: b,
            lt: trigger_byte(gp.trigger_left),
            rt: trigger_byte(gp.trigger_right),
            lx: gp.left_x,
            ly: flip_axis(gp.left_y),
            rx: gp.right_x,
            ry: flip_axis(gp.right_y),
        };
    }
}

impl Default for DeviceState {
    fn default() -> (r: Self)
        ensures
            r.input == Xbox360Input::spec_rest(),
    {
        DeviceState::new()
    }
}

/// Whether a held button shows in a button word.
pub open spec fn has_flag(buttons: u32, bit: u32) -> bool {
    buttons & bit != 0
}

/// Each button of a snapshot shows in its button word exactly when it is held,
/// and the word holds no other bit.
pub proof fn lemma_buttons_tell_each_button(gp: GamepadSnapshot)
    ensures
        has_flag(spec_buttons(gp), BUTTON_A) == gp.south,
        has_flag(spec_buttons(gp), BUTTON_B) == gp.east,
        has_flag(spec_buttons(gp), BUTTON_X) == gp.west,
        has_flag(spec_buttons(gp), BUTTON_Y) == gp.north,
        has_flag(spec_buttons(gp), BUTTON_START) == gp.start,
        has_flag(spec_buttons(gp), BUTTON_BACK) == gp.back,
        has_flag(spec_buttons(gp), BUTTON_L_THUMB) == gp.left_stick,
        has_flag(spec_buttons(gp), BUTTON_R_THUMB) == gp.right_stick,
        has_flag(spec_buttons(gp), BUTTON_L_SHOULDER) == gp.left_shoulder,
        has_flag(spec_buttons(gp), BUTTON_R_SHOULDER) == gp.right_shoulder,
        has_flag(spec_buttons(gp), BUTTON_GUIDE) == gp.guide,
        has_flag(spec_buttons(gp), BUTTON_D_PAD_UP) == gp.dpad_up,
        has_flag(spec_buttons(gp), BUTTON_D_PAD_DOWN) == gp.dpad_down,
        has_flag(spec_buttons(gp), BUTTON_D_PAD_LEFT) == gp.dpad_left,
        has_flag(spec_buttons(gp), BUTTON_D_PAD_RIGHT) == gp.dpad_right,
        spec_buttons(gp) & 0xffff_0800 == 0,
{
    let a: u32 = flag(gp.south, 4096);
    let b: u32 = flag(gp.east, 8192);
    let x: u32 = flag(gp.west, 16384);
    let y: u32 = flag(gp.north, 32768);
    let st: u32 = flag(gp.start, 16);
    let bk: u32 = flag(gp.back, 32);
    let lth: u32 = flag(gp.left_stick, 64);
    let rth: u32 = flag(gp.right_stick, 128);
    let ls: u32 = flag(gp.left_shoulder, 256);
    let rs: u32 = flag(gp.right_shoulder, 512);
    let g: u32 = flag(gp.guide, 1024);
    let up: u32 = flag(gp.dpad_up, 1);
    let dn: u32 = flag(gp.dpad_down, 2);
    let lf: u32 = flag(gp.dpad_left, 4);
    let rt: u32 = flag(gp.dpad_right, 8);
    let w: u32 = a | b | x | y | st | bk | lth | rth | ls | rs | g | up | dn | lf | rt;
    assert(w == spec_buttons(gp));
    assert((w & 4096 != 0) == (a != 0) && (w & 8192 != 0) == (b != 0) && (w & 16384 != 0) == (x
        != 0) && (w & 32768 != 0) == (y != 0)) by (bit_vector)
        requires
            w == a | b | x | y | st | bk | lth | rth | ls | rs | g | up | dn | lf | rt,
            a == 0 || a == 4096,
            b == 0 || b == 8192,
            x == 0 || x == 16384,
            y == 0 || y == 32768,
            st < 4096 && bk < 4096 && lth < 4096 && rth < 4096 && ls < 4096 && rs < 4096 && g
                < 4096 && up < 4096 && dn < 4096 && lf < 4096 && rt < 4096,
    ;
    assert((w & 16 != 0) == (st != 0) && (w & 32 != 0) == (bk != 0) && (w & 64 != 0) == (lth != 0)
        && (w & 128 != 0) == (rth != 0)) by (bit_vector)
        requires
            w == a | b | x | y | st | bk | lth | rth | ls | rs | g | up | dn | lf | rt,
            a == 0 || a == 4096,
            b == 0 || b == 8192,
            x == 0 || x == 16384,
            y == 0 || y == 32768,
            st == 0 || st == 16,
            bk == 0 || bk == 32,
            lth == 0 || lth == 64,
            rth == 0 || rth == 128,
            ls == 0 || ls == 256,
            rs == 0 || rs == 512,
            g == 0 || g == 1024,
            up < 16 && dn < 16 && lf < 16 && rt < 16,
    ;
    assert((w & 256 != 0) == (ls != 0) && (w & 512 != 0) == (rs != 0) && (w & 1024 != 0) == (g
        != 0) && (w & 0xffff_0800 == 0)) by (bit_vector)
        requires
            w == a | b | x | y | st | bk | lth | rth | ls | rs | g | up | dn | lf | rt,
            a == 0 || a == 4096,
            b == 0 || b == 8192,
            x == 0 || x == 16384,
            y == 0 || y == 32768,
            ls == 0 || ls == 256,
            rs == 0 || rs == 512,
            g == 0 || g == 1024,
            st < 256 && bk < 256 && lth < 256 && rth < 256 && up < 256 && dn < 256 && lf < 256
                && rt < 256,
    ;
    assert((w & 1 != 0) == (up != 0) && (w & 2 != 0) == (dn != 0) && (w & 4 != 0) == (lf != 0) && (
    w & 8 != 0) == (rt != 0)) by (bit_vector)
        requires
            w == a | b | x | y | st | bk | lth | rth | ls | rs | g | up | dn | lf | rt,
            a == 0 || a == 4096,
            b == 0 || b == 8192,
            x == 0 || x == 16384,
            y == 0 || y == 32768,
            st == 0 || st == 16,
            bk == 0 || bk == 32,
            lth == 0 || lth == 64,
            rth == 0 || rth == 128,
            ls == 0 || ls == 256,
            rs == 0 || rs == 512,
            g == 0 || g == 1024,
            up == 0 || up == 1,
            dn == 0 || dn == 2,
            lf == 0 || lf == 4,
            rt == 0 || rt == 8,
    ;
}

/// What is known of one opened source: through which of the two input APIs
/// it was opened, and what it reported of itself (name, path, vendor and
/// product id, as far as available).
#[derive(Clone, Debug)]
pub struct SdlDeviceInfo {
    pub is_gamepad: bool,
    pub properties: Vec<(String, String)>,
}

/// A virtual device as the server allocated it.
#[derive(Clone, Debug)]
pub struct ViiperDevice {
    pub bus_id: u32,
    pub dev_id: String,
    pub vid: String,
    pub pid: String,
    pub device_type: String,
}

/// The contents of a [`ViiperDevice`].
pub struct ViiperDeviceView {
    pub bus_id: u32,
    pub dev_id: Seq<char>,
    pub vid: Seq<char>,
    pub pid: Seq<char>,
    pub device_type: Seq<char>,
}

impl View for ViiperDevice {
    type V = ViiperDeviceView;

    open spec fn view(&self) -> ViiperDeviceView {
        ViiperDeviceView {
            bus_id: self.bus_id,
            dev_id: self.dev_id@,
            vid: self.vid@,
            pid: self.pid@,
            device_type: self.device_type@,
        }
    }
}

impl ViiperDevice {
    /// A copy with the same contents.
    pub fn duplicate(&self) -> (r: Self)
        ensures
            r@ == self@,
    {
        ViiperDevice {
            bus_id: self.bus_id,
            dev_id: self.dev_id.clone(),
            vid: self.vid.clone(),
            pid: self.pid.clone(),
            device_type: self.device_type.clone(),
        }
    }
}

/// One logical device: a physical device with every source that stands for
/// it, or an emulated keyboard or mouse without sources.
#[derive(Clone, Debug)]
pub struct Device {
    /// Locally assigned, never reused.
    pub id: u64,
    /// The sources that stand for this device.
    pub sdl_ids: Vec<u32>,
    /// The platform's handle for the device; 0 while it has none.
    pub steam_handle: u64,
    /// The type of virtual device asked of the server.
    pub viiper_type: String,
    /// The virtual device, once the server has allocated one.
    pub viiper_device: Option<ViiperDevice>,
    /// Whether the stream to the virtual device stands.
    pub viiper_connected: bool,
    /// One entry for each opening of a source of this device.
    pub sdl_device_infos: Vec<SdlDeviceInfo>,
}

/// The contents of a [`Device`].
pub struct DeviceView {
    pub id: u64,
    pub sdl_ids: Seq<u32>,
    pub steam_handle: u64,
    pub viiper_type: Seq<char>,
    pub viiper_device: Option<ViiperDeviceView>,
    pub viiper_connected: bool,
    pub sdl_device_infos: Seq<SdlDeviceInfo>,
}

/// The contents of an optional virtual device.
pub open spec fn remote_view(d: Option<ViiperDevice>) -> Option<ViiperDeviceView> {
    match d {
        Some(v) => Some(v@),
        None => None,
    }
}

impl View for Device {
    type V = DeviceView;

    open spec fn view(&self) -> DeviceView {
        DeviceView {
            id: self.id,
            sdl_ids: self.sdl_ids@,
            steam_handle: self.steam_handle,
            viiper_type: self.viiper_type@,
            viiper_device: remote_view(self.viiper_device),
            viiper_connected: self.viiper_connected,
            sdl_device_infos: self.sdl_device_infos@,
        }
    }
}

/// The device type of a physical controller.
pub open spec fn kind_controller() -> Seq<char> {
    "xbox360"@
}

/// The device type of the emulated keyboard.
pub open spec fn kind_keyboard() -> Seq<char> {
    "keyboard"@
}

/// The device type of the emulated mouse.
pub open spec fn kind_mouse() -> Seq<char> {
    "mouse"@
}

/// The three device types are different texts.
pub proof fn lemma_kinds_differ()
    ensures
        kind_controller() != kind_keyboard(),
        kind_controller() != kind_mouse(),
        kind_keyboard() != kind_mouse(),
{
    reveal_strlit("xbox360");
    reveal_strlit("keyboard");
    reveal_strlit("mouse");
    assert(kind_controller().len() == 7);
    assert(kind_keyboard().len() == 8);
    assert(kind_mouse().len() == 5);
}

impl DeviceView {
    /// A device without sources, handle or virtual device.
    pub open spec fn blank(id: u64, kind: Seq<char>) -> DeviceView {
        DeviceView {
            id,
            sdl_ids: Seq::empty(),
            steam_handle: 0,
            viiper_type: kind,
            viiper_device: None,
            viiper_connected: false,
            sdl_device_infos: Seq::empty(),
        }
    }

    /// Whether the device is bound to the platform and streaming.
    pub open spec fn steam_bound(self) -> bool {
        self.steam_handle != 0 && self.viiper_connected
    }

    /// Whether the device is an emulated keyboard or mouse.
    pub open spec fn emulated(self) -> bool {
        self.viiper_type == kind_keyboard() || self.viiper_type == kind_mouse()
    }

    /// Whether one of the openings of this device went through the joystick API.
    pub open spec fn has_joystick_info(self) -> bool {
        exists|i: int|
            0 <= i < self.sdl_device_infos.len() && !(#[trigger] self.sdl_device_infos[i]).is_gamepad
    }
}

impl Device {
    /// A device of the given type without sources, handle or virtual device.
    pub fn new(id: u64, viiper_type: &str) -> (r: Self)
        ensures
            r@ == DeviceView::blank(id, viiper_type@),
    {
        Device {
            id,
            sdl_ids: Vec::new(),
            steam_handle: 0,
            viiper_type: viiper_type.to_owned(),
            viiper_device: None,
            viiper_connected: false,
            sdl_device_infos: Vec::new(),
        }
    }

    /// Whether the device is an emulated keyboard or mouse.
    pub fn emulated(&self) -> (r: bool)
        ensures
            r == self@.emulated(),
    {
        same_text(self.viiper_type.as_str(), "keyboard") || same_text(
            self.viiper_type.as_str(),
            "mouse",
        )
    }

    /// Whether the device is bound to the platform and streaming.
    pub fn steam_bound(&self) -> (r: bool)
        ensures
            r == self@.steam_bound(),
    {
        self.steam_handle != 0 && self.viiper_connected
    }

    /// Whether one of the openings of this device went through the joystick API.
    pub fn has_joystick_info(&self) -> (r: bool)
        ensures
            r == self@.has_joystick_info(),
    {
        let mut i: usize = 0;
        while i < self.sdl_device_infos.len()
            invariant
                i <= self.sdl_device_infos@.len(),
                forall|k: int| 0 <= k < i ==> (#[trigger] self.sdl_device_infos@[k]).is_gamepad,
            decreases self.sdl_device_infos@.len() - i,
        {
            if !self.sdl_device_infos[i].is_gamepad {
                assert(!self@.sdl_device_infos[i as int].is_gamepad);
                return true;
            }
            i = i + 1;
        }
        false
    }
}

} // verus!
