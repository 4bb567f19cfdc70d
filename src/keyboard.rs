//! Keyboard event records and the shared set of keys and modifiers held down.

use vstd::prelude::*;

use crate::hid::{keyboard_report, keyboard_report_bytes};
use crate::keymap::{key_target, spec_key_target, KeyCodeModifier, KeyTarget, UsbKeyCode};
use crate::passthrough::{lemma_lists_unopened_step, lists_unopened};

verus! {

/// `s` with `key` appended, unless it is already there.
pub open spec fn added(s: Seq<u8>, key: u8) -> Seq<u8> {
    if s.contains(key) {
        s
    } else {
        s.push(key)
    }
}

/// The test that keeps every key but `key`.
pub open spec fn other_than(key: u8) -> spec_fn(u8) -> bool {
    |k: u8| k != key
}

/// `s` without any occurrence of `key`, the rest in order.
pub open spec fn removed(s: Seq<u8>, key: u8) -> Seq<u8> {
    s.filter(other_than(key))
}

/// Whether `key` occurs in `key_vec`.
pub fn holds_key(key_vec: &Vec<u8>, key: u8) -> (r: bool)
    ensures
        r == key_vec@.contains(key),
{
    let mut i: usize = 0;
    while i < key_vec.len()
        invariant
            i <= key_vec@.len(),
            forall|j: int| 0 <= j < i ==> key_vec@[j] != key,
        decreases key_vec@.len() - i,
    {
        if key_vec[i] == key {
            return true;
        }
        i = i + 1;
    }
    false
}

/// Marks `key` as held: appended at the end unless already present.
pub fn add_generic_down(key: u8, key_vec: &mut Vec<u8>)
    ensures
        final(key_vec)@ == added(old(key_vec)@, key),
{
    if !holds_key(key_vec, key) {
        key_vec.push(key);
    }
}

/// Marks `key` as released: every occurrence goes, the other keys keep their order.
pub fn remove_generic_down(key: u8, key_vec: &mut Vec<u8>)
    ensures
        final(key_vec)@ == removed(old(key_vec)@, key),
{
    let mut kept: Vec<u8> = Vec::new();
    let mut i: usize = 0;
    while i < key_vec.len()
        invariant
            i <= key_vec@.len(),
            kept@ == removed(key_vec@.take(i as int), key),
        decreases key_vec@.len() - i,
    {
        proof {
            reveal(Seq::filter);
            assert(key_vec@.take(i + 1).drop_last() =~= key_vec@.take(i as int));
        }
        if key_vec[i] != key {
            kept.push(key_vec[i]);
        }
        i = i + 1;
    }
    assert(key_vec@.take(i as int) =~= key_vec@);
    *key_vec = kept;
}

/// The keys and modifiers held down, each in the order it was pressed.
pub struct KeyboardState {
    keys_down: Vec<u8>,
    modifiers_down: Vec<u8>,
}

impl KeyboardState {
    /// Usage codes of the keys held, oldest first.
    pub closed spec fn keys(&self) -> Seq<u8> {
        self.keys_down@
    }

    /// Ordinals of the modifiers held, oldest first.
    pub closed spec fn modifiers(&self) -> Seq<u8> {
        self.modifiers_down@
    }

    /// Each key and modifier is held at most once, and modifiers are valid ordinals.
    pub open spec fn wf(&self) -> bool {
        &&& self.keys().no_duplicates()
        &&& self.modifiers().no_duplicates()
        &&& forall|i: int| 0 <= i < self.modifiers().len() ==> self.modifiers()[i] < 8
    }

    /// Nothing held.
    pub fn new() -> (r: KeyboardState)
        ensures
            r.wf(),
            r.keys() == Seq::<u8>::empty(),
            r.modifiers() == Seq::<u8>::empty(),
    {
        KeyboardState { keys_down: Vec::new(), modifiers_down: Vec::new() }
    }

    pub fn keys_down(&self) -> (r: &Vec<u8>)
        ensures
            r@ == self.keys(),
    {
        &self.keys_down
    }

    pub fn modifiers_down(&self) -> (r: &Vec<u8>)
        ensures
            r@ == self.modifiers(),
    {
        &self.modifiers_down
    }

    /// Presses (`down`) or releases what `target` stands for.
    pub fn apply(&mut self, target: KeyTarget, down: bool)
        requires
            old(self).wf(),
        ensures
            final(self).wf(),
            (final(self).keys(), final(self).modifiers()) == key_transition(
                old(self).keys(),
                old(self).modifiers(),
                target,
                down,
            ),
    {
        match target {
            KeyTarget::Key(key) => {
                if down {
                    add_generic_down(key.code(), &mut self.keys_down);
                } else {
                    remove_generic_down(key.code(), &mut self.keys_down);
                }
                proof {
                    lemma_added_removed_keep_distinct(old(self).keys(), key.code());
                }
            },
            KeyTarget::Modifier(modifier) => {
                if down {
                    add_generic_down(modifier.ordinal(), &mut self.modifiers_down);
                } else {
                    remove_generic_down(modifier.ordinal(), &mut self.modifiers_down);
                }
                proof {
                    lemma_added_removed_keep_distinct(old(self).modifiers(), modifier.ordinal());
                    lemma_removed_is_subset(old(self).modifiers(), modifier.ordinal());
                    assert forall|i: int| 0 <= i < self.modifiers().len() implies self.modifiers()[i]
                        < 8 by {
                        let x = self.modifiers()[i];
                        if x != modifier.ordinal() {
                            assert(self.modifiers().contains(x));
                            assert(old(self).modifiers().contains(x));
                        }
                    }
                }
            },
            KeyTarget::Unmapped => {},
        }
    }
}

impl Default for KeyboardState {
    fn default() -> (r: KeyboardState)
        ensures
            r.wf(),
            r.keys() == Seq::<u8>::empty(),
            r.modifiers() == Seq::<u8>::empty(),
    {
        KeyboardState::new()
    }
}

/// The held keys and modifiers after pressing (`down`) or releasing what `target` stands for.
pub open spec fn key_transition(keys: Seq<u8>, modifiers: Seq<u8>, target: KeyTarget, down: bool) -> (
    Seq<u8>,
    Seq<u8>,
) {
    match target {
        KeyTarget::Key(key) => (
            if down {
                added(keys, key.spec_code())
            } else {
                removed(keys, key.spec_code())
            },
            modifiers,
        ),
        KeyTarget::Modifier(modifier) => (
            keys,
            if down {
                added(modifiers, modifier.spec_ordinal())
            } else {
                removed(modifiers, modifier.spec_ordinal())
            },
        ),
        KeyTarget::Unmapped => (keys, modifiers),
    }
}

/// Every element of `removed(s, key)` is an element of `s`, and `key` is not one of them.
proof fn lemma_removed_is_subset(s: Seq<u8>, key: u8)
    ensures
        forall|x: u8| #[trigger] removed(s, key).contains(x) ==> s.contains(x) && x != key,
{
    assert forall|x: u8| removed(s, key).contains(x) implies s.contains(x) && x != key by {
        s.lemma_filter_contains_rev(other_than(key), x);
        let r = removed(s, key);
        let j = choose|j: int| 0 <= j < r.len() && r[j] == x;
        s.lemma_filter_pred(other_than(key), j);
    }
}

/// Adding and removing keep a sequence free of duplicates.
proof fn lemma_added_removed_keep_distinct(s: Seq<u8>, key: u8)
    requires
        s.no_duplicates(),
    ensures
        added(s, key).no_duplicates(),
        removed(s, key).no_duplicates(),
    decreases s.len(),
{
    reveal(Seq::filter);
    if s.len() > 0 {
        let rest = s.drop_last();
        assert(rest.no_duplicates());
        lemma_added_removed_keep_distinct(rest, key);
        lemma_removed_is_subset(rest, key);
        let kept = removed(rest, key);
        if s.last() != key {
            assert(!kept.contains(s.last())) by {
                if kept.contains(s.last()) {
                    assert(rest.contains(s.last()));
                    let k = choose|k: int| 0 <= k < rest.len() && rest[k] == s.last();
                    assert(s[k] == s[s.len() - 1]);
                }
            }
            assert(removed(s, key) == kept.push(s.last()));
            assert forall|i: int, j: int|
                0 <= i < j < kept.len() + 1 implies kept.push(s.last())[i] != kept.push(s.last())[j] by {
                if j == kept.len() {
                    assert(kept.contains(kept[i]));
                }
            }
        }
    }
}

/// Whether `key` is among the keys held.
pub fn is_key_down(key: UsbKeyCode, state: &KeyboardState) -> (r: bool)
    ensures
        r == state.keys().contains(key.spec_code()),
{
    holds_key(&state.keys_down, key.code())
}

/// Whether `modifier` is among the modifiers held.
pub fn is_modifier_down(modifier: KeyCodeModifier, state: &KeyboardState) -> (r: bool)
    ensures
        r == state.modifiers().contains(modifier.spec_ordinal()),
{
    holds_key(&state.modifiers_down, modifier.ordinal())
}

/// Pressing a key twice leaves it held exactly once, just as pressing it once does.
pub proof fn lemma_add_idempotent(s: Seq<u8>, key: u8)
    requires
        s.no_duplicates(),
    ensures
        added(added(s, key), key) == added(s, key),
        added(s, key).contains(key),
        added(s, key).no_duplicates(),
{
    lemma_added_removed_keep_distinct(s, key);
    assert(added(s, key).contains(key)) by {
        if !s.contains(key) {
            assert(added(s, key)[s.len() as int] == key);
        }
    }
}

/// Releasing a key that is not held changes nothing.
pub proof fn lemma_remove_absent(s: Seq<u8>, key: u8)
    requires
        !s.contains(key),
    ensures
        removed(s, key) == s,
    decreases s.len(),
{
    reveal(Seq::filter);
    if s.len() > 0 {
        assert(!s.drop_last().contains(key)) by {
            if s.drop_last().contains(key) {
                let k = choose|k: int| 0 <= k < s.drop_last().len() && s.drop_last()[k] == key;
                assert(s[k] == key);
            }
        }
        lemma_remove_absent(s.drop_last(), key);
        assert(s.last() != key) by {
            assert(s[s.len() - 1] == s.last());
        }
        assert(s.drop_last().push(s.last()) =~= s);
    }
}

/// Releasing a key that is held once removes exactly that one entry.
pub proof fn lemma_remove_held_len(s: Seq<u8>, key: u8)
    requires
        s.no_duplicates(),
        s.contains(key),
    ensures
        removed(s, key).len() == s.len() - 1,
    decreases s.len(),
{
    reveal(Seq::filter);
    let rest = s.drop_last();
    assert(rest.no_duplicates());
    if s.last() == key {
        assert(!rest.contains(key)) by {
            if rest.contains(key) {
                let k = choose|k: int| 0 <= k < rest.len() && rest[k] == key;
                assert(s[k] == s[s.len() - 1]);
            }
        }
        lemma_remove_absent(rest, key);
    } else {
        assert(rest.contains(key)) by {
            let k = choose|k: int| 0 <= k < s.len() && s[k] == key;
            assert(k != s.len() - 1);
            assert(rest[k] == key);
        }
        lemma_remove_held_len(rest, key);
    }
}

/// Releasing a key other than `key` after `key` was appended keeps `key` last.
pub proof fn lemma_remove_before_last(s: Seq<u8>, key: u8, other: u8)
    requires
        other != key,
    ensures
        removed(s.push(key), other) == removed(s, other).push(key),
{
    reveal(Seq::filter);
    assert(s.push(key).drop_last() =~= s);
}

/// A released key is no longer held.
pub proof fn lemma_removed_absent(s: Seq<u8>, key: u8)
    ensures
        !removed(s, key).contains(key),
{
    lemma_removed_is_subset(s, key);
}

/// Kind of input event that carries key presses and releases.
pub const EV_KEY: u16 = 1;

/// Length of the type, code and value fields at the end of an event record.
pub const EVENT_FIELDS_LEN: usize = 8;

/// One input event: its type, key code and value (0 released, 1 pressed, 2 repeated).
#[derive(Clone, Copy, Debug, PartialEq, Eq, Structural)]
pub struct KeyEvent {
    pub event_type: u16,
    pub code: u16,
    pub value: i32,
}

/// The unsigned 16-bit little-endian value at `s[i]`, `s[i + 1]`.
pub open spec fn le_u16_at(s: Seq<u8>, i: int) -> int {
    s[i] + 0x100 * s[i + 1]
}

/// The signed 32-bit little-endian value at `s[i]` to `s[i + 3]`.
pub open spec fn le_i32_at(s: Seq<u8>, i: int) -> int {
    let u = s[i] + 0x100 * s[i + 1] + 0x1_0000 * s[i + 2] + 0x100_0000 * s[i + 3];
    if u < 0x8000_0000 {
        u
    } else {
        u - 0x1_0000_0000
    }
}

/// The event in a record of `record_len` bytes: a timestamp, then the type, code and value
/// fields in its last eight bytes.
pub open spec fn decoded_record(s: Seq<u8>, record_len: int) -> KeyEvent {
    let o = record_len - EVENT_FIELDS_LEN;
    KeyEvent {
        event_type: le_u16_at(s, o) as u16,
        code: le_u16_at(s, o + 2) as u16,
        value: le_i32_at(s, o + 4) as i32,
    }
}

/// Whether `n` bytes hold a whole record of `record_len` bytes.
pub open spec fn complete_record(n: int, record_len: int) -> bool {
    EVENT_FIELDS_LEN <= record_len <= n
}

fn read_u16(bytes: &[u8], i: usize) -> (r: u16)
    requires
        i + 2 <= bytes@.len(),
    ensures
        r == le_u16_at(bytes@, i as int),
{
    bytes[i] as u16 + bytes[i + 1] as u16 * 0x100
}

fn read_i32(bytes: &[u8], i: usize) -> (r: i32)
    requires
        i + 4 <= bytes@.len(),
    ensures
        r == le_i32_at(bytes@, i as int),
{
    let u: u32 = bytes[i] as u32 + bytes[i + 1] as u32 * 0x100 + bytes[i + 2] as u32 * 0x1_0000
        + bytes[i + 3] as u32 * 0x100_0000;
    if u < 0x8000_0000 {
        u as i32
    } else {
        (u as i64 - 0x1_0000_0000) as i32
    }
}

/// Reads the event from a record of `record_len` bytes; a short read holds none.
pub fn parse_key_record(record: &[u8], record_len: usize) -> (r: Option<KeyEvent>)
    ensures
        r == if complete_record(record@.len() as int, record_len as int) {
            Some(decoded_record(record@, record_len as int))
        } else {
            None
        },
{
    if record_len < EVENT_FIELDS_LEN || record.len() < record_len {
        return None;
    }
    let o = record_len - EVENT_FIELDS_LEN;
    Some(
        KeyEvent {
            event_type: read_u16(record, o),
            code: read_u16(record, o + 2),
            value: read_i32(record, o + 4),
        },
    )
}

/// Whether an event changes the held keys: a key event whose code the table maps.
pub open spec fn accepted(ev: KeyEvent) -> bool {
    ev.event_type == EV_KEY && !(spec_key_target(ev.code) is Unmapped)
}

/// The event of a record that changes the held keys, if it is one.
pub open spec fn key_change(record: Seq<u8>, record_len: int) -> Option<KeyEvent> {
    if complete_record(record.len() as int, record_len) && accepted(
        decoded_record(record, record_len),
    ) {
        Some(decoded_record(record, record_len))
    } else {
        None
    }
}

/// Handles the bytes of one read from a keyboard. A key event for a mapped code presses (any
/// value but 0) or releases the key or modifier, and gives the report of the new state to
/// send at once; anything else changes nothing and gives no report.
pub fn attempt_read(state: &mut KeyboardState, record: &[u8], record_len: usize) -> (r: Option<
    [u8; 9],
>)
    requires
        old(state).wf(),
    ensures
        final(state).wf(),
        match key_change(record@, record_len as int) {
            Some(ev) => {
                &&& (final(state).keys(), final(state).modifiers()) == key_transition(
                    old(state).keys(),
                    old(state).modifiers(),
                    spec_key_target(ev.code),
                    ev.value != 0,
                )
                &&& r matches Some(report) && report@ == keyboard_report_bytes(
                    final(state).keys(),
                    final(state).modifiers(),
                )
            },
            None => r is None && *final(state) == *old(state),
        },
{
    let ev = match parse_key_record(record, record_len) {
        Some(ev) => ev,
        None => return None,
    };
    if ev.event_type != EV_KEY {
        return None;
    }
    let target = key_target(ev.code);
    if let KeyTarget::Unmapped = target {
        return None;
    }
    state.apply(target, ev.value != 0);
    Some(keyboard_report(state))
}

/// The PS/2 command that selects scan code set 2.
pub fn scancode_set_packet() -> (r: [u8; 2])
    ensures
        r@ == seq![0xf0u8, 2u8],
{
    let r = [0xf0u8, 2u8];
    assert(r@ =~= seq![0xf0u8, 2u8]);
    r
}

/// The character sequences of a list of paths.
pub open spec fn path_views(paths: Seq<String>) -> Seq<Seq<char>> {
    paths.map_values(|p: String| p@)
}

/// Whether `path` is among `paths`.
pub fn is_path_listed(paths: &Vec<String>, path: &String) -> (r: bool)
    ensures
        r == path_views(paths@).contains(path@),
{
    let mut i: usize = 0;
    while i < paths.len()
        invariant
            i <= paths@.len(),
            forall|j: int| 0 <= j < i ==> paths@[j]@ != path@,
        decreases paths@.len() - i,
    {
        if paths[i] == *path {
            assert(path_views(paths@)[i as int] == path@);
            return true;
        }
        i = i + 1;
    }
    assert(!path_views(paths@).contains(path@)) by {
        if path_views(paths@).contains(path@) {
            let k = choose|k: int| 0 <= k < paths@.len() && path_views(paths@)[k] == path@;
            assert(paths@[k]@ == path@);
        }
    }
    false
}

/// The positions, in ascending order, of the configured keyboards that are not open.
pub fn check_keyboards(keyboard_inputs: &Vec<String>, keyboard_interfaces: &Vec<String>) -> (r: Vec<
    usize,
>)
    ensures
        lists_unopened(r@, path_views(keyboard_inputs@), path_views(keyboard_interfaces@)),
{
    let ghost configured = path_views(keyboard_inputs@);
    let ghost open = path_views(keyboard_interfaces@);
    let mut r: Vec<usize> = Vec::new();
    let mut i: usize = 0;
    while i < keyboard_inputs.len()
        invariant
            i <= keyboard_inputs@.len(),
            configured == path_views(keyboard_inputs@),
            open == path_views(keyboard_interfaces@),
            forall|j: int| 0 <= j < r@.len() ==> r@[j] < i,
            lists_unopened(r@, configured.take(i as int), open),
        decreases keyboard_inputs@.len() - i,
    {
        proof {
            lemma_lists_unopened_step(r@, configured, open, i as int);
        }
        if !is_path_listed(keyboard_interfaces, &keyboard_inputs[i]) {
            r.push(i);
        }
        i = i + 1;
    }
    assert(configured.take(i as int) =~= configured);
    r
}

} // verus!
