//! Encoding of mouse and keyboard state into HID reports.

use vstd::prelude::*;

use crate::keyboard::{
    added, holds_key, lemma_remove_before_last, lemma_remove_held_len, removed, KeyboardState,
};
use crate::mouse::{bit_set, MouseRaw};

verus! {

/// The value of a signed 16-bit quantity read as an unsigned one (two's complement).
pub open spec fn unsigned16(v: i16) -> int {
    if v < 0 {
        v + 0x10000
    } else {
        v as int
    }
}

/// The two bytes of `v` on the wire: low byte first.
pub open spec fn le_bytes(v: u16) -> Seq<u8> {
    seq![(v % 0x100) as u8, (v / 0x100) as u8]
}

/// Splits a 16-bit value into its two bytes, least significant first.
pub fn u16_to_u8s(value: u16) -> (r: [u8; 2])
    ensures
        r@ == le_bytes(value),
{
    let low_byte = (value & 0xff) as u8;
    let high_byte = (value >> 8) as u8;
    assert(value & 0xff == value % 0x100 && value >> 8 == value / 0x100) by (bit_vector);
    [low_byte, high_byte]
}

/// Report identifier of mouse reports.
pub const MOUSE_REPORT_ID: u8 = 1;

/// One bit per button: left, right, middle, four, five from the lowest bit up.
pub open spec fn button_mask(raw: MouseRaw) -> int {
    (if raw.left_button { 1int } else { 0 }) + (if raw.right_button { 2int } else { 0 }) + (
    if raw.middle_button { 4int } else { 0 }) + (if raw.four_button { 8int } else { 0 }) + (
    if raw.five_button { 16int } else { 0 })
}

/// The mouse report of an event: identifier, button mask, then X, Y and wheel as 16-bit
/// little-endian two's complement values.
pub open spec fn mouse_report_bytes(raw: MouseRaw) -> Seq<u8> {
    seq![MOUSE_REPORT_ID, button_mask(raw) as u8] + le_bytes(unsigned16(raw.relative_x) as u16)
        + le_bytes(unsigned16(raw.relative_y) as u16) + le_bytes(
        unsigned16(raw.relative_wheel) as u16,
    )
}

/// A 16-bit value read as two's complement.
pub open spec fn signed16(u: int) -> int {
    if u < 0x8000 {
        u
    } else {
        u - 0x10000
    }
}

/// The event that a mouse report describes.
pub open spec fn decoded_mouse_report(r: Seq<u8>) -> MouseRaw {
    MouseRaw {
        left_button: bit_set(r[1], 1),
        right_button: bit_set(r[1], 2),
        middle_button: bit_set(r[1], 4),
        four_button: bit_set(r[1], 8),
        five_button: bit_set(r[1], 16),
        relative_x: signed16(r[2] + 0x100 * r[3]) as i16,
        relative_y: signed16(r[4] + 0x100 * r[5]) as i16,
        relative_wheel: signed16(r[6] + 0x100 * r[7]) as i16,
    }
}

/// A signed 16-bit value in its unsigned representation.
fn as_unsigned(v: i16) -> (r: u16)
    ensures
        r == unsigned16(v),
{
    if v < 0 {
        (v as i32 + 0x10000) as u16
    } else {
        v as u16
    }
}

/// Encodes a motion event as a mouse report.
pub fn mouse_report(raw: &MouseRaw) -> (r: [u8; 8])
    ensures
        r@ == mouse_report_bytes(*raw),
{
    let mut buttons: u8 = 0;
    if raw.left_button {
        buttons = buttons + 1;
    }
    if raw.right_button {
        buttons = buttons + 2;
    }
    if raw.middle_button {
        buttons = buttons + 4;
    }
    if raw.four_button {
        buttons = buttons + 8;
    }
    if raw.five_button {
        buttons = buttons + 16;
    }
    let x = u16_to_u8s(as_unsigned(raw.relative_x));
    let y = u16_to_u8s(as_unsigned(raw.relative_y));
    let wheel = u16_to_u8s(as_unsigned(raw.relative_wheel));
    let r = [MOUSE_REPORT_ID, buttons, x[0], x[1], y[0], y[1], wheel[0], wheel[1]];
    assert(r@ =~= mouse_report_bytes(*raw));
    r
}

/// Decoding a mouse report gives back the event it was encoded from.
pub proof fn lemma_mouse_report_round_trip(raw: MouseRaw)
    ensures
        decoded_mouse_report(mouse_report_bytes(raw)) == raw,
{
    let r = mouse_report_bytes(raw);
    assert(r[1] as int == button_mask(raw));
    assert(r[2] + 0x100 * r[3] == unsigned16(raw.relative_x));
    assert(r[4] + 0x100 * r[5] == unsigned16(raw.relative_y));
    assert(r[6] + 0x100 * r[7] == unsigned16(raw.relative_wheel));
}

/// Report identifier of keyboard reports.
pub const KEYBOARD_REPORT_ID: u8 = 2;

/// 1 when the modifier of ordinal `ordinal` is held, else 0.
pub open spec fn held(modifiers: Seq<u8>, ordinal: u8) -> int {
    if modifiers.contains(ordinal) {
        1
    } else {
        0
    }
}

/// The modifier byte: bit `o` is set exactly when the modifier of ordinal `o` is held.
pub open spec fn modifier_mask(modifiers: Seq<u8>) -> int {
    held(modifiers, 0) + 2 * held(modifiers, 1) + 4 * held(modifiers, 2) + 8 * held(modifiers, 3)
        + 16 * held(modifiers, 4) + 32 * held(modifiers, 5) + 64 * held(modifiers, 6) + 128 * held(
        modifiers,
        7,
    )
}

/// Key slot `i` of a report: the `i`-th key held, or 0 when fewer are held.
pub open spec fn slot(keys: Seq<u8>, i: int) -> u8 {
    if i < keys.len() {
        keys[i]
    } else {
        0
    }
}

/// The keyboard report: identifier, modifier byte, a reserved zero byte, then the first six
/// keys held in the order they were pressed, padded with zeros.
pub open spec fn keyboard_report_bytes(keys: Seq<u8>, modifiers: Seq<u8>) -> Seq<u8> {
    seq![
        KEYBOARD_REPORT_ID,
        modifier_mask(modifiers) as u8,
        0u8,
        slot(keys, 0),
        slot(keys, 1),
        slot(keys, 2),
        slot(keys, 3),
        slot(keys, 4),
        slot(keys, 5),
    ]
}

/// `value` when `on`, else 0.
fn weight(on: bool, value: u8) -> (r: u8)
    ensures
        r == if on {
            value
        } else {
            0
        },
{
    if on {
        value
    } else {
        0
    }
}

/// Key slot `i` of a report.
fn key_slot(keys: &Vec<u8>, i: usize) -> (r: u8)
    ensures
        r == slot(keys@, i as int),
{
    if i < keys.len() {
        keys[i]
    } else {
        0
    }
}

/// Encodes the held keys and modifiers as a keyboard report.
pub fn keyboard_report(state: &KeyboardState) -> (r: [u8; 9])
    ensures
        r@ == keyboard_report_bytes(state.keys(), state.modifiers()),
{
    let modifiers = state.modifiers_down();
    let mask = weight(holds_key(modifiers, 0), 1) + weight(holds_key(modifiers, 1), 2) + weight(
        holds_key(modifiers, 2),
        4,
    ) + weight(holds_key(modifiers, 3), 8) + weight(holds_key(modifiers, 4), 16) + weight(
        holds_key(modifiers, 5),
        32,
    ) + weight(holds_key(modifiers, 6), 64) + weight(holds_key(modifiers, 7), 128);
    let keys = state.keys_down();
    let r = [
        KEYBOARD_REPORT_ID,
        mask,
        0,
        key_slot(keys, 0),
        key_slot(keys, 1),
        key_slot(keys, 2),
        key_slot(keys, 3),
        key_slot(keys, 4),
        key_slot(keys, 5),
    ];
    assert(r@ =~= keyboard_report_bytes(state.keys(), state.modifiers()));
    r
}

/// A key newly pressed while fewer than six are held takes the next free slot; the rest of
/// the report stays as it was.
pub proof fn lemma_new_key_takes_next_slot(keys: Seq<u8>, modifiers: Seq<u8>, key: u8)
    requires
        !keys.contains(key),
        keys.len() < 6,
    ensures
        keyboard_report_bytes(added(keys, key), modifiers)[3 + keys.len() as int] == key,
        forall|i: int|
            0 <= i < 9 && i != 3 + keys.len() ==> #[trigger] keyboard_report_bytes(
                added(keys, key),
                modifiers,
            )[i] == keyboard_report_bytes(keys, modifiers)[i],
{
}

/// Keys pressed one after another, none released, fill the first slots in the order pressed.
pub proof fn lemma_press_order(a: u8, b: u8, c: u8, modifiers: Seq<u8>)
    requires
        a != b,
        a != c,
        b != c,
    ensures
        keyboard_report_bytes(added(added(added(Seq::empty(), a), b), c), modifiers).subrange(3, 9)
            == seq![a, b, c, 0u8, 0u8, 0u8],
{
    let one = added(Seq::<u8>::empty(), a);
    assert(one =~= seq![a]);
    let two = added(one, b);
    assert(!one.contains(b)) by {
        assert(one[0] == a);
    }
    assert(two =~= seq![a, b]);
    assert(!two.contains(c)) by {
        assert(two[0] == a && two[1] == b);
    }
    assert(keyboard_report_bytes(added(two, c), modifiers).subrange(3, 9) =~= seq![
        a,
        b,
        c,
        0u8,
        0u8,
        0u8,
    ]);
}

/// A key pressed while six or more are held does not show in the report.
pub proof fn lemma_seventh_key_hidden(keys: Seq<u8>, modifiers: Seq<u8>, key: u8)
    requires
        keys.len() >= 6,
    ensures
        keyboard_report_bytes(added(keys, key), modifiers) == keyboard_report_bytes(keys, modifiers),
{
    assert(keyboard_report_bytes(added(keys, key), modifiers) =~= keyboard_report_bytes(
        keys,
        modifiers,
    ));
}

/// With six keys held and a seventh pressed, releasing any of the six brings the seventh
/// into the last slot.
pub proof fn lemma_release_frees_slot(keys: Seq<u8>, modifiers: Seq<u8>, key: u8, j: int)
    requires
        keys.len() == 6,
        keys.no_duplicates(),
        !keys.contains(key),
        0 <= j < 6,
    ensures
        keyboard_report_bytes(removed(added(keys, key), keys[j]), modifiers)[8] == key,
{
    assert(keys.contains(keys[j]));
    assert(keys[j] != key);
    lemma_remove_before_last(keys, key, keys[j]);
    lemma_remove_held_len(keys, keys[j]);
}

} // verus!
