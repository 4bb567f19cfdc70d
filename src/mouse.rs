//! Relative-motion packets from pointing devices, and the per-device state they update.

use vstd::prelude::*;

use crate::hid::{mouse_report, mouse_report_bytes};
use crate::passthrough::{lemma_lists_unopened_step, lists_unopened, HidMouse};

verus! {

/// Which buttons a mouse last reported as held.
#[derive(Clone, Copy, Debug, PartialEq, Eq, Structural)]
pub struct MouseState {
    pub left_button: bool,
    pub right_button: bool,
    pub middle_button: bool,
    pub four_button: bool,
    pub five_button: bool,
}

impl Default for MouseState {
    fn default() -> (r: MouseState)
        ensures
            r == released_buttons(),
    {
        MouseState {
            left_button: false,
            right_button: false,
            middle_button: false,
            four_button: false,
            five_button: false,
        }
    }
}

/// Every button up.
pub open spec fn released_buttons() -> MouseState {
    MouseState {
        left_button: false,
        right_button: false,
        middle_button: false,
        four_button: false,
        five_button: false,
    }
}

/// How a device's motion is transformed before it is reported.
#[derive(Clone, Copy, Debug, PartialEq, Eq, Structural)]
pub struct MouseSettings {
    pub invert_x: bool,
    pub invert_y: bool,
    pub invert_wheel: bool,
    pub sensitivity_multiplier: i16,
}

impl Default for MouseSettings {
    fn default() -> (r: MouseSettings)
        ensures
            r == default_settings(),
    {
        MouseSettings {
            invert_x: false,
            invert_y: false,
            invert_wheel: false,
            sensitivity_multiplier: 1,
        }
    }
}

/// No inversion, unit sensitivity.
pub open spec fn default_settings() -> MouseSettings {
    MouseSettings {
        invert_x: false,
        invert_y: false,
        invert_wheel: false,
        sensitivity_multiplier: 1,
    }
}

/// One decoded motion event: buttons held and the three signed deltas.
#[derive(Clone, Copy, Debug, PartialEq, Eq, Structural)]
pub struct MouseRaw {
    pub left_button: bool,
    pub right_button: bool,
    pub middle_button: bool,
    pub four_button: bool,
    pub five_button: bool,
    pub relative_x: i16,
    pub relative_y: i16,
    pub relative_wheel: i16,
}

impl Default for MouseRaw {
    fn default() -> (r: MouseRaw)
        ensures
            r == neutral_event(),
    {
        MouseRaw {
            left_button: false,
            right_button: false,
            middle_button: false,
            four_button: false,
            five_button: false,
            relative_x: 0,
            relative_y: 0,
            relative_wheel: 0,
        }
    }
}

/// No button held and no motion.
pub open spec fn neutral_event() -> MouseRaw {
    MouseRaw {
        left_button: false,
        right_button: false,
        middle_button: false,
        four_button: false,
        five_button: false,
        relative_x: 0,
        relative_y: 0,
        relative_wheel: 0,
    }
}

/// Length of a relative-motion packet.
pub const PACKET_LEN: usize = 4;

/// Whether the bit of place value `place` (1, 2, 4, ...) is set in `b`.
pub open spec fn bit_set(b: u8, place: int) -> bool {
    (b as int / place) % 2 == 1
}

/// A byte read as a two's complement signed value.
pub open spec fn signed8(b: u8) -> int {
    if b < 0x80 {
        b as int
    } else {
        b - 0x100
    }
}

/// A 4-bit field (0 to 15) read as a two's complement signed value.
pub open spec fn signed4(n: int) -> int {
    if n < 8 {
        n
    } else {
        n - 16
    }
}

/// The wheel movement in the last byte of a packet, before any inversion: the low four bits
/// in extended mode, the whole byte otherwise.
pub open spec fn wheel_tick(b: u8, side_buttons: bool) -> int {
    if side_buttons {
        signed4((b % 16) as int)
    } else {
        signed8(b)
    }
}

/// `v`, negated when `invert` holds.
pub open spec fn flip(v: int, invert: bool) -> int {
    if invert {
        -v
    } else {
        v
    }
}

/// `v` limited to the range of `i16`.
pub open spec fn saturate16(v: int) -> int {
    if v > i16::MAX {
        i16::MAX as int
    } else if v < i16::MIN {
        i16::MIN as int
    } else {
        v
    }
}

/// The buttons encoded in the first and last bytes of a packet; side buttons exist only in
/// extended mode.
pub open spec fn decoded_buttons(first: u8, last: u8, side_buttons: bool) -> MouseState {
    MouseState {
        left_button: bit_set(first, 1),
        right_button: bit_set(first, 2),
        middle_button: bit_set(first, 4),
        four_button: side_buttons && bit_set(last, 16),
        five_button: side_buttons && bit_set(last, 32),
    }
}

/// The event that a complete packet `p` stands for under `settings`.
pub open spec fn decoded_packet(p: Seq<u8>, side_buttons: bool, settings: MouseSettings) -> MouseRaw {
    let buttons = decoded_buttons(p[0], p[3], side_buttons);
    let m = settings.sensitivity_multiplier as int;
    MouseRaw {
        left_button: buttons.left_button,
        right_button: buttons.right_button,
        middle_button: buttons.middle_button,
        four_button: buttons.four_button,
        five_button: buttons.five_button,
        relative_x: saturate16(flip(signed8(p[1]), settings.invert_x) * m) as i16,
        relative_y: saturate16(flip(-signed8(p[2]), settings.invert_y) * m) as i16,
        relative_wheel: flip(wheel_tick(p[3], side_buttons), settings.invert_wheel) as i16,
    }
}

/// The button state held in an event.
pub open spec fn buttons_of(raw: MouseRaw) -> MouseState {
    MouseState {
        left_button: raw.left_button,
        right_button: raw.right_button,
        middle_button: raw.middle_button,
        four_button: raw.four_button,
        five_button: raw.five_button,
    }
}

/// Reads the buttons from the first and last bytes of a packet.
pub fn decode_buttons(first: u8, last: u8, side_buttons: bool) -> (r: MouseState)
    ensures
        r == decoded_buttons(first, last, side_buttons),
{
    assert(first & 0x01 != 0 <==> (first / 1) % 2 == 1) by (bit_vector);
    assert(first & 0x02 != 0 <==> (first / 2) % 2 == 1) by (bit_vector);
    assert(first & 0x04 != 0 <==> (first / 4) % 2 == 1) by (bit_vector);
    assert(last & 0x10 != 0 <==> (last / 16) % 2 == 1) by (bit_vector);
    assert(last & 0x20 != 0 <==> (last / 32) % 2 == 1) by (bit_vector);
    MouseState {
        left_button: first & 0x01 != 0,
        right_button: first & 0x02 != 0,
        middle_button: first & 0x04 != 0,
        four_button: side_buttons && last & 0x10 != 0,
        five_button: side_buttons && last & 0x20 != 0,
    }
}

/// Reads a byte as a two's complement signed value.
fn signed_byte(b: u8) -> (r: i16)
    ensures
        r == signed8(b),
{
    if b < 0x80 {
        b as i16
    } else {
        b as i16 - 0x100
    }
}

/// Reads the wheel movement from the last byte of a packet, before any inversion. In extended
/// mode it is the sign-extended low nibble.
pub fn decode_wheel(last: u8, side_buttons: bool) -> (r: i16)
    ensures
        r == wheel_tick(last, side_buttons),
{
    if side_buttons {
        let nibble = last & 0x0f;
        assert(last & 0x0f == last % 16) by (bit_vector);
        if nibble < 8 {
            nibble as i16
        } else {
            nibble as i16 - 16
        }
    } else {
        signed_byte(last)
    }
}

/// Negates `v` when `invert` holds.
fn flip_axis(v: i16, invert: bool) -> (r: i16)
    requires
        v > i16::MIN,
    ensures
        r == flip(v as int, invert),
{
    if invert {
        -v
    } else {
        v
    }
}

/// Scales a motion delta by the sensitivity multiplier, saturating at the bounds of `i16`.
fn scale_axis(v: i16, multiplier: i16) -> (r: i16)
    requires
        -0x100 <= v <= 0x100,
    ensures
        r == saturate16(v * multiplier),
{
    assert(-0x100 * 0x8000 <= v * multiplier <= 0x100 * 0x8000) by (nonlinear_arith)
        requires
            -0x100 <= v <= 0x100,
            -0x8000 <= multiplier < 0x8000,
    ;
    let product: i32 = v as i32 * multiplier as i32;
    if product > i16::MAX as i32 {
        i16::MAX
    } else if product < i16::MIN as i32 {
        i16::MIN
    } else {
        product as i16
    }
}

/// Decodes a relative-motion packet. Fewer than four bytes is no packet yet.
pub fn decode_packet(packet: &[u8], side_buttons: bool, settings: &MouseSettings) -> (r: Option<
    MouseRaw,
>)
    ensures
        r == if packet@.len() >= PACKET_LEN {
            Some(decoded_packet(packet@, side_buttons, *settings))
        } else {
            None
        },
{
    if packet.len() < PACKET_LEN {
        return None;
    }
    let buttons = decode_buttons(packet[0], packet[3], side_buttons);
    let x = flip_axis(signed_byte(packet[1]), settings.invert_x);
    let y = flip_axis(-signed_byte(packet[2]), settings.invert_y);
    let wheel = flip_axis(decode_wheel(packet[3], side_buttons), settings.invert_wheel);
    Some(
        MouseRaw {
            left_button: buttons.left_button,
            right_button: buttons.right_button,
            middle_button: buttons.middle_button,
            four_button: buttons.four_button,
            five_button: buttons.five_button,
            relative_x: scale_axis(x, settings.sensitivity_multiplier),
            relative_y: scale_axis(y, settings.sensitivity_multiplier),
            relative_wheel: wheel,
        },
    )
}

/// A connected pointing device: its path, transform settings, mode and last button state.
pub struct Mouse {
    pub mouse_path: String,
    pub mouse_settings: MouseSettings,
    pub mouse_state: MouseState,
    pub side_buttons: bool,
}

impl Mouse {
    /// A newly attached device: default settings, no button held.
    pub fn new(mouse_path: String, side_buttons: bool) -> (r: Mouse)
        ensures
            r.mouse_path == mouse_path,
            r.mouse_settings == default_settings(),
            r.mouse_state == released_buttons(),
            r.side_buttons == side_buttons,
    {
        Mouse {
            mouse_path,
            mouse_settings: MouseSettings::default(),
            mouse_state: MouseState::default(),
            side_buttons,
        }
    }

    pub fn get_state(&self) -> (r: &MouseState)
        ensures
            *r == self.mouse_state,
    {
        &self.mouse_state
    }
}

/// Whether `b` is `a` with at most its button state changed.
pub open spec fn same_device(a: Mouse, b: Mouse) -> bool {
    &&& b.mouse_path == a.mouse_path
    &&& b.mouse_settings == a.mouse_settings
    &&& b.side_buttons == a.side_buttons
}

/// Records the buttons of `raw` as the device's state and encodes `raw` as a mouse report.
pub fn push_mouse_event(raw: &MouseRaw, mouse: &mut Mouse) -> (r: [u8; 8])
    ensures
        r@ == mouse_report_bytes(*raw),
        same_device(*old(mouse), *final(mouse)),
        final(mouse).mouse_state == buttons_of(*raw),
{
    mouse.mouse_state = MouseState {
        left_button: raw.left_button,
        right_button: raw.right_button,
        middle_button: raw.middle_button,
        four_button: raw.four_button,
        five_button: raw.five_button,
    };
    mouse_report(raw)
}

/// Handles the bytes of one read from the device: a complete packet updates the button state
/// and gives the report to send; a short read gives nothing and changes nothing.
pub fn attempt_read(mouse: &mut Mouse, packet: &[u8]) -> (r: Option<[u8; 8]>)
    ensures
        packet@.len() < PACKET_LEN ==> r is None && *final(mouse) == *old(mouse),
        packet@.len() >= PACKET_LEN ==> {
            let raw = decoded_packet(packet@, old(mouse).side_buttons, old(mouse).mouse_settings);
            &&& r matches Some(report) && report@ == mouse_report_bytes(raw)
            &&& same_device(*old(mouse), *final(mouse))
            &&& final(mouse).mouse_state == buttons_of(raw)
        },
{
    match decode_packet(packet, mouse.side_buttons, &mouse.mouse_settings) {
        Some(raw) => Some(push_mouse_event(&raw, mouse)),
        None => None,
    }
}

/// The sample-rate sequence sent to a newly attached device: 200, 100, 80 selects the wheel
/// mode, 200, 200, 80 the extended mode with side buttons.
pub open spec fn feature_bytes(side_buttons: bool) -> Seq<u8> {
    if side_buttons {
        seq![0xf3, 200, 0xf3, 200, 0xf3, 80]
    } else {
        seq![0xf3, 200, 0xf3, 100, 0xf3, 80]
    }
}

pub fn mouse_feature(side_buttons: bool) -> (r: [u8; 6])
    ensures
        r@ == feature_bytes(side_buttons),
{
    let r = if side_buttons {
        [0xf3, 200, 0xf3, 200, 0xf3, 80]
    } else {
        [0xf3, 200, 0xf3, 100, 0xf3, 80]
    };
    assert(r@ =~= feature_bytes(side_buttons));
    r
}

/// The four bytes of `v` in two's complement, most significant first.
pub open spec fn be_bytes32(v: i32) -> Seq<u8> {
    let u = if v < 0 {
        v + 0x1_0000_0000
    } else {
        v as int
    };
    seq![
        (u / 0x100_0000) as u8,
        (u / 0x1_0000 % 0x100) as u8,
        (u / 0x100 % 0x100) as u8,
        (u % 0x100) as u8,
    ]
}

/// The set-sample-rate command followed by the rate as four big-endian bytes.
pub fn poll_rate_packet(poll_rate: i32) -> (r: Vec<u8>)
    ensures
        r@ == seq![0xf3u8] + be_bytes32(poll_rate),
{
    let u: u32 = if poll_rate < 0 {
        (poll_rate as i64 + 0x1_0000_0000) as u32
    } else {
        poll_rate as u32
    };
    let r = vec![
        0xf3u8,
        (u / 0x100_0000) as u8,
        (u / 0x1_0000 % 0x100) as u8,
        (u / 0x100 % 0x100) as u8,
        (u % 0x100) as u8,
    ];
    assert(r@ =~= seq![0xf3u8] + be_bytes32(poll_rate));
    r
}

/// The paths of the devices in a registry.
pub open spec fn mouse_paths(mice: Seq<Mouse>) -> Seq<Seq<char>> {
    mice.map_values(|m: Mouse| m.mouse_path@)
}

/// The configured paths.
pub open spec fn configured_mouse_paths(inputs: Seq<HidMouse>) -> Seq<Seq<char>> {
    inputs.map_values(|m: HidMouse| m.mouse_path@)
}

/// Whether a device with path `path` is in the registry.
pub fn is_mouse_open(mice: &Vec<Mouse>, path: &String) -> (r: bool)
    ensures
        r == mouse_paths(mice@).contains(path@),
{
    let mut i: usize = 0;
    while i < mice.len()
        invariant
            i <= mice@.len(),
            forall|j: int| 0 <= j < i ==> mice@[j].mouse_path@ != path@,
        decreases mice@.len() - i,
    {
        if mice[i].mouse_path == *path {
            assert(mouse_paths(mice@)[i as int] == path@);
            return true;
        }
        i = i + 1;
    }
    assert(!mouse_paths(mice@).contains(path@)) by {
        if mouse_paths(mice@).contains(path@) {
            let k = choose|k: int| 0 <= k < mice@.len() && mouse_paths(mice@)[k] == path@;
            assert(mice@[k].mouse_path@ == path@);
        }
    }
    false
}

/// The positions, in ascending order, of the configured devices that are not open.
pub fn check_mouses(mouse_inputs: &Vec<HidMouse>, mouse_interfaces: &Vec<Mouse>) -> (r: Vec<usize>)
    ensures
        lists_unopened(
            r@,
            configured_mouse_paths(mouse_inputs@),
            mouse_paths(mouse_interfaces@),
        ),
{
    let ghost configured = configured_mouse_paths(mouse_inputs@);
    let ghost open = mouse_paths(mouse_interfaces@);
    let mut r: Vec<usize> = Vec::new();
    let mut i: usize = 0;
    while i < mouse_inputs.len()
        invariant
            i <= mouse_inputs@.len(),
            configured == configured_mouse_paths(mouse_inputs@),
            open == mouse_paths(mouse_interfaces@),
            forall|j: int| 0 <= j < r@.len() ==> r@[j] < i,
            lists_unopened(r@, configured.take(i as int), open),
        decreases mouse_inputs@.len() - i,
    {
        proof {
            lemma_lists_unopened_step(r@, configured, open, i as int);
        }
        if !is_mouse_open(mouse_interfaces, &mouse_inputs[i].mouse_path) {
            r.push(i);
        }
        i = i + 1;
    }
    assert(configured.take(i as int) =~= configured);
    r
}

} // verus!
