//! The mapping from kernel input key codes to USB HID usage codes and modifier bits.

use vstd::prelude::*;

verus! {

/// A key of the USB HID keyboard usage page.
#[derive(Clone, Copy, Debug, PartialEq, Eq, Structural)]
pub enum UsbKeyCode {
    KEYRESERVED,
    KEYA,
    KEYB,
    KEYC,
    KEYD,
    KEYE,
    KEYF,
    KEYG,
    KEYH,
    KEYI,
    KEYJ,
    KEYK,
    KEYL,
    KEYM,
    KEYN,
    KEYO,
    KEYP,
    KEYQ,
    KEYR,
    KEYS,
    KEYT,
    KEYU,
    KEYV,
    KEYW,
    KEYX,
    KEYY,
    KEYZ,
    KEY1,
    KEY2,
    KEY3,
    KEY4,
    KEY5,
    KEY6,
    KEY7,
    KEY8,
    KEY9,
    KEY0,
    KEYENTER,
    KEYESC,
    KEYBACKSPACE,
    KEYTAB,
    KEYSPACE,
    KEYMINUS,
    KEYEQUAL,
    KEYLEFTBRACE,
    KEYRIGHTBRACE,
    KEYBACKSLASH,
    KEYHASHTILDE,
    KEYSEMICOLON,
    KEYAPOSTROPHE,
    KEYGRAVE,
    KEYCOMMA,
    KEYDOT,
    KEYSLASH,
    KEYCAPSLOCK,
    KEYF1,
    KEYF2,
    KEYF3,
    KEYF4,
    KEYF5,
    KEYF6,
    KEYF7,
    KEYF8,
    KEYF9,
    KEYF10,
    KEYF11,
    KEYF12,
    KEYSYSRQ,
    KEYSCROLLLOCK,
    KEYPAUSE,
    KEYINSERT,
    KEYHOME,
    KEYPAGEUP,
    KEYDELETE,
    KEYEND,
    KEYPAGEDOWN,
    KEYRIGHT,
    KEYLEFT,
    KEYDOWN,
    KEYUP,
    KEYNUMLOCK,
    KEYKPSLASH,
    KEYKPASTERISK,
    KEYKPMINUS,
    KEYKPPLUS,
    KEYKPENTER,
    KEYKP1,
    KEYKP2,
    KEYKP3,
    KEYKP4,
    KEYKP5,
    KEYKP6,
    KEYKP7,
    KEYKP8,
    KEYKP9,
    KEYKP0,
    KEYKPDOT,
    KEY102ND,
    KEYCOMPOSE,
    KEYPOWER,
    KEYKPEQUAL,
    KEYF13,
    KEYF14,
    KEYF15,
    KEYF16,
    KEYF17,
    KEYF18,
    KEYF19,
    KEYF20,
    KEYF21,
    KEYF22,
    KEYF23,
    KEYF24,
    KEYOPEN,
    KEYHELP,
    KEYPROPS,
    KEYFRONT,
    KEYSTOP,
    KEYAGAIN,
    KEYUNDO,
    KEYCUT,
    KEYCOPY,
    KEYPASTE,
    KEYFIND,
    KEYMUTE,
    KEYVOLUMEUP,
    KEYVOLUMEDOWN,
}

impl UsbKeyCode {
    /// The usage code sent in a keyboard report.
    pub open spec fn spec_code(self) -> u8 {
        match self {
            UsbKeyCode::KEYRESERVED => 0x00,
            UsbKeyCode::KEYA => 0x04,
            UsbKeyCode::KEYB => 0x05,
            UsbKeyCode::KEYC => 0x06,
            UsbKeyCode::KEYD => 0x07,
            UsbKeyCode::KEYE => 0x08,
            UsbKeyCode::KEYF => 0x09,
            UsbKeyCode::KEYG => 0x0a,
            UsbKeyCode::KEYH => 0x0b,
            UsbKeyCode::KEYI => 0x0c,
            UsbKeyCode::KEYJ => 0x0d,
            UsbKeyCode::KEYK => 0x0e,
            UsbKeyCode::KEYL => 0x0f,
            UsbKeyCode::KEYM => 0x10,
            UsbKeyCode::KEYN => 0x11,
            UsbKeyCode::KEYO => 0x12,
            UsbKeyCode::KEYP => 0x13,
            UsbKeyCode::KEYQ => 0x14,
            UsbKeyCode::KEYR => 0x15,
            UsbKeyCode::KEYS => 0x16,
            UsbKeyCode::KEYT => 0x17,
            UsbKeyCode::KEYU => 0x18,
            UsbKeyCode::KEYV => 0x19,
            UsbKeyCode::KEYW => 0x1a,
            UsbKeyCode::KEYX => 0x1b,
            UsbKeyCode::KEYY => 0x1c,
            UsbKeyCode::KEYZ => 0x1d,
            UsbKeyCode::KEY1 => 0x1e,
            UsbKeyCode::KEY2 => 0x1f,
            UsbKeyCode::KEY3 => 0x20,
            UsbKeyCode::KEY4 => 0x21,
            UsbKeyCode::KEY5 => 0x22,
            UsbKeyCode::KEY6 => 0x23,
            UsbKeyCode::KEY7 => 0x24,
            UsbKeyCode::KEY8 => 0x25,
            UsbKeyCode::KEY9 => 0x26,
            UsbKeyCode::KEY0 => 0x27,
            UsbKeyCode::KEYENTER => 0x28,
            UsbKeyCode::KEYESC => 0x29,
            UsbKeyCode::KEYBACKSPACE => 0x2a,
            UsbKeyCode::KEYTAB => 0x2b,
            UsbKeyCode::KEYSPACE => 0x2c,
            UsbKeyCode::KEYMINUS => 0x2d,
            UsbKeyCode::KEYEQUAL => 0x2e,
            UsbKeyCode::KEYLEFTBRACE => 0x2f,
            UsbKeyCode::KEYRIGHTBRACE => 0x30,
            UsbKeyCode::KEYBACKSLASH => 0x31,
            UsbKeyCode::KEYHASHTILDE => 0x32,
            UsbKeyCode::KEYSEMICOLON => 0x33,
            UsbKeyCode::KEYAPOSTROPHE => 0x34,
            UsbKeyCode::KEYGRAVE => 0x35,
            UsbKeyCode::KEYCOMMA => 0x36,
            UsbKeyCode::KEYDOT => 0x37,
            UsbKeyCode::KEYSLASH => 0x38,
            UsbKeyCode::KEYCAPSLOCK => 0x39,
            UsbKeyCode::KEYF1 => 0x3a,
            UsbKeyCode::KEYF2 => 0x3b,
            UsbKeyCode::KEYF3 => 0x3c,
            UsbKeyCode::KEYF4 => 0x3d,
            UsbKeyCode::KEYF5 => 0x3e,
            UsbKeyCode::KEYF6 => 0x3f,
            UsbKeyCode::KEYF7 => 0x40,
            UsbKeyCode::KEYF8 => 0x41,
            UsbKeyCode::KEYF9 => 0x42,
            UsbKeyCode::KEYF10 => 0x43,
            UsbKeyCode::KEYF11 => 0x44,
            UsbKeyCode::KEYF12 => 0x45,
            UsbKeyCode::KEYSYSRQ => 0x46,
            UsbKeyCode::KEYSCROLLLOCK => 0x47,
            UsbKeyCode::KEYPAUSE => 0x48,
            UsbKeyCode::KEYINSERT => 0x49,
            UsbKeyCode::KEYHOME => 0x4a,
            UsbKeyCode::KEYPAGEUP => 0x4b,
            UsbKeyCode::KEYDELETE => 0x4c,
            UsbKeyCode::KEYEND => 0x4d,
            UsbKeyCode::KEYPAGEDOWN => 0x4e,
            UsbKeyCode::KEYRIGHT => 0x4f,
            UsbKeyCode::KEYLEFT => 0x50,
            UsbKeyCode::KEYDOWN => 0x51,
            UsbKeyCode::KEYUP => 0x52,
            UsbKeyCode::KEYNUMLOCK => 0x53,
            UsbKeyCode::KEYKPSLASH => 0x54,
            UsbKeyCode::KEYKPASTERISK => 0x55,
            UsbKeyCode::KEYKPMINUS => 0x56,
            UsbKeyCode::KEYKPPLUS => 0x57,
            UsbKeyCode::KEYKPENTER => 0x58,
            UsbKeyCode::KEYKP1 => 0x59,
            UsbKeyCode::KEYKP2 => 0x5a,
            UsbKeyCode::KEYKP3 => 0x5b,
            UsbKeyCode::KEYKP4 => 0x5c,
            UsbKeyCode::KEYKP5 => 0x5d,
            UsbKeyCode::KEYKP6 => 0x5e,
            UsbKeyCode::KEYKP7 => 0x5f,
            UsbKeyCode::KEYKP8 => 0x60,
            UsbKeyCode::KEYKP9 => 0x61,
            UsbKeyCode::KEYKP0 => 0x62,
            UsbKeyCode::KEYKPDOT => 0x63,
            UsbKeyCode::KEY102ND => 0x64,
            UsbKeyCode::KEYCOMPOSE => 0x65,
            UsbKeyCode::KEYPOWER => 0x66,
            UsbKeyCode::KEYKPEQUAL => 0x67,
            UsbKeyCode::KEYF13 => 0x68,
            UsbKeyCode::KEYF14 => 0x69,
            UsbKeyCode::KEYF15 => 0x6a,
            UsbKeyCode::KEYF16 => 0x6b,
            UsbKeyCode::KEYF17 => 0x6c,
            UsbKeyCode::KEYF18 => 0x6d,
            UsbKeyCode::KEYF19 => 0x6e,
            UsbKeyCode::KEYF20 => 0x6f,
            UsbKeyCode::KEYF21 => 0x70,
            UsbKeyCode::KEYF22 => 0x71,
            UsbKeyCode::KEYF23 => 0x72,
            UsbKeyCode::KEYF24 => 0x73,
            UsbKeyCode::KEYOPEN => 0x74,
            UsbKeyCode::KEYHELP => 0x75,
            UsbKeyCode::KEYPROPS => 0x76,
            UsbKeyCode::KEYFRONT => 0x77,
            UsbKeyCode::KEYSTOP => 0x78,
            UsbKeyCode::KEYAGAIN => 0x79,
            UsbKeyCode::KEYUNDO => 0x7a,
            UsbKeyCode::KEYCUT => 0x7b,
            UsbKeyCode::KEYCOPY => 0x7c,
            UsbKeyCode::KEYPASTE => 0x7d,
            UsbKeyCode::KEYFIND => 0x7e,
            UsbKeyCode::KEYMUTE => 0x7f,
            UsbKeyCode::KEYVOLUMEUP => 0x80,
            UsbKeyCode::KEYVOLUMEDOWN => 0x81,
        }
    }

    #[verifier::when_used_as_spec(spec_code)]
    pub fn code(self) -> (r: u8)
        ensures
            r == self.spec_code(),
    {
        match self {
            UsbKeyCode::KEYRESERVED => 0x00,
            UsbKeyCode::KEYA => 0x04,
            UsbKeyCode::KEYB => 0x05,
            UsbKeyCode::KEYC => 0x06,
            UsbKeyCode::KEYD => 0x07,
            UsbKeyCode::KEYE => 0x08,
            UsbKeyCode::KEYF => 0x09,
            UsbKeyCode::KEYG => 0x0a,
            UsbKeyCode::KEYH => 0x0b,
            UsbKeyCode::KEYI => 0x0c,
            UsbKeyCode::KEYJ => 0x0d,
            UsbKeyCode::KEYK => 0x0e,
            UsbKeyCode::KEYL => 0x0f,
            UsbKeyCode::KEYM => 0x10,
            UsbKeyCode::KEYN => 0x11,
            UsbKeyCode::KEYO => 0x12,
            UsbKeyCode::KEYP => 0x13,
            UsbKeyCode::KEYQ => 0x14,
            UsbKeyCode::KEYR => 0x15,
            UsbKeyCode::KEYS => 0x16,
            UsbKeyCode::KEYT => 0x17,
            UsbKeyCode::KEYU => 0x18,
            UsbKeyCode::KEYV => 0x19,
            UsbKeyCode::KEYW => 0x1a,
            UsbKeyCode::KEYX => 0x1b,
            UsbKeyCode::KEYY => 0x1c,
            UsbKeyCode::KEYZ => 0x1d,
            UsbKeyCode::KEY1 => 0x1e,
            UsbKeyCode::KEY2 => 0x1f,
            UsbKeyCode::KEY3 => 0x20,
            UsbKeyCode::KEY4 => 0x21,
            UsbKeyCode::KEY5 => 0x22,
            UsbKeyCode::KEY6 => 0x23,
            UsbKeyCode::KEY7 => 0x24,
            UsbKeyCode::KEY8 => 0x25,
            UsbKeyCode::KEY9 => 0x26,
            UsbKeyCode::KEY0 => 0x27,
            UsbKeyCode::KEYENTER => 0x28,
            UsbKeyCode::KEYESC => 0x29,
            UsbKeyCode::KEYBACKSPACE => 0x2a,
            UsbKeyCode::KEYTAB => 0x2b,
            UsbKeyCode::KEYSPACE => 0x2c,
            UsbKeyCode::KEYMINUS => 0x2d,
            UsbKeyCode::KEYEQUAL => 0x2e,
            UsbKeyCode::KEYLEFTBRACE => 0x2f,
            UsbKeyCode::KEYRIGHTBRACE => 0x30,
            UsbKeyCode::KEYBACKSLASH => 0x31,
            UsbKeyCode::KEYHASHTILDE => 0x32,
            UsbKeyCode::KEYSEMICOLON => 0x33,
            UsbKeyCode::KEYAPOSTROPHE => 0x34,
            UsbKeyCode::KEYGRAVE => 0x35,
            UsbKeyCode::KEYCOMMA => 0x36,
            UsbKeyCode::KEYDOT => 0x37,
            UsbKeyCode::KEYSLASH => 0x38,
            UsbKeyCode::KEYCAPSLOCK => 0x39,
            UsbKeyCode::KEYF1 => 0x3a,
            UsbKeyCode::KEYF2 => 0x3b,
            UsbKeyCode::KEYF3 => 0x3c,
            UsbKeyCode::KEYF4 => 0x3d,
            UsbKeyCode::KEYF5 => 0x3e,
            UsbKeyCode::KEYF6 => 0x3f,
            UsbKeyCode::KEYF7 => 0x40,
            UsbKeyCode::KEYF8 => 0x41,
            UsbKeyCode::KEYF9 => 0x42,
            UsbKeyCode::KEYF10 => 0x43,
            UsbKeyCode::KEYF11 => 0x44,
            UsbKeyCode::KEYF12 => 0x45,
            UsbKeyCode::KEYSYSRQ => 0x46,
            UsbKeyCode::KEYSCROLLLOCK => 0x47,
            UsbKeyCode::KEYPAUSE => 0x48,
            UsbKeyCode::KEYINSERT => 0x49,
            UsbKeyCode::KEYHOME => 0x4a,
            UsbKeyCode::KEYPAGEUP => 0x4b,
            UsbKeyCode::KEYDELETE => 0x4c,
            UsbKeyCode::KEYEND => 0x4d,
            UsbKeyCode::KEYPAGEDOWN => 0x4e,
            UsbKeyCode::KEYRIGHT => 0x4f,
            UsbKeyCode::KEYLEFT => 0x50,
            UsbKeyCode::KEYDOWN => 0x51,
            UsbKeyCode::KEYUP => 0x52,
            UsbKeyCode::KEYNUMLOCK => 0x53,
            UsbKeyCode::KEYKPSLASH => 0x54,
            UsbKeyCode::KEYKPASTERISK => 0x55,
            UsbKeyCode::KEYKPMINUS => 0x56,
            UsbKeyCode::KEYKPPLUS => 0x57,
            UsbKeyCode::KEYKPENTER => 0x58,
            UsbKeyCode::KEYKP1 => 0x59,
            UsbKeyCode::KEYKP2 => 0x5a,
            UsbKeyCode::KEYKP3 => 0x5b,
            UsbKeyCode::KEYKP4 => 0x5c,
            UsbKeyCode::KEYKP5 => 0x5d,
            UsbKeyCode::KEYKP6 => 0x5e,
            UsbKeyCode::KEYKP7 => 0x5f,
            UsbKeyCode::KEYKP8 => 0x60,
            UsbKeyCode::KEYKP9 => 0x61,
            UsbKeyCode::KEYKP0 => 0x62,
            UsbKeyCode::KEYKPDOT => 0x63,
            UsbKeyCode::KEY102ND => 0x64,
            UsbKeyCode::KEYCOMPOSE => 0x65,
            UsbKeyCode::KEYPOWER => 0x66,
            UsbKeyCode::KEYKPEQUAL => 0x67,
            UsbKeyCode::KEYF13 => 0x68,
            UsbKeyCode::KEYF14 => 0x69,
            UsbKeyCode::KEYF15 => 0x6a,
            UsbKeyCode::KEYF16 => 0x6b,
            UsbKeyCode::KEYF17 => 0x6c,
            UsbKeyCode::KEYF18 => 0x6d,
            UsbKeyCode::KEYF19 => 0x6e,
            UsbKeyCode::KEYF20 => 0x6f,
            UsbKeyCode::KEYF21 => 0x70,
            UsbKeyCode::KEYF22 => 0x71,
            UsbKeyCode::KEYF23 => 0x72,
            UsbKeyCode::KEYF24 => 0x73,
            UsbKeyCode::KEYOPEN => 0x74,
            UsbKeyCode::KEYHELP => 0x75,
            UsbKeyCode::KEYPROPS => 0x76,
            UsbKeyCode::KEYFRONT => 0x77,
            UsbKeyCode::KEYSTOP => 0x78,
            UsbKeyCode::KEYAGAIN => 0x79,
            UsbKeyCode::KEYUNDO => 0x7a,
            UsbKeyCode::KEYCUT => 0x7b,
            UsbKeyCode::KEYCOPY => 0x7c,
            UsbKeyCode::KEYPASTE => 0x7d,
            UsbKeyCode::KEYFIND => 0x7e,
            UsbKeyCode::KEYMUTE => 0x7f,
            UsbKeyCode::KEYVOLUMEUP => 0x80,
            UsbKeyCode::KEYVOLUMEDOWN => 0x81,
        }
    }
}

/// A modifier key; each has one bit of the modifier byte of a keyboard report.
#[derive(Clone, Copy, Debug, PartialEq, Eq, Structural)]
pub enum KeyCodeModifier {
    KEYLEFTCTRL,
    KEYLEFTSHIFT,
    KEYLEFTALT,
    KEYLEFTMETA,
    KEYRIGHTCTRL,
    KEYRIGHTSHIFT,
    KEYRIGHTALT,
    KEYRIGHTMETA,
}

impl KeyCodeModifier {
    /// The position of the modifier's bit in the modifier byte.
    pub open spec fn spec_ordinal(self) -> u8 {
        match self {
            KeyCodeModifier::KEYLEFTCTRL => 0,
            KeyCodeModifier::KEYLEFTSHIFT => 1,
            KeyCodeModifier::KEYLEFTALT => 2,
            KeyCodeModifier::KEYLEFTMETA => 3,
            KeyCodeModifier::KEYRIGHTCTRL => 4,
            KeyCodeModifier::KEYRIGHTSHIFT => 5,
            KeyCodeModifier::KEYRIGHTALT => 6,
            KeyCodeModifier::KEYRIGHTMETA => 7,
        }
    }

    #[verifier::when_used_as_spec(spec_ordinal)]
    pub fn ordinal(self) -> (r: u8)
        ensures
            r == self.spec_ordinal(),
            r < 8,
    {
        match self {
            KeyCodeModifier::KEYLEFTCTRL => 0,
            KeyCodeModifier::KEYLEFTSHIFT => 1,
            KeyCodeModifier::KEYLEFTALT => 2,
            KeyCodeModifier::KEYLEFTMETA => 3,
            KeyCodeModifier::KEYRIGHTCTRL => 4,
            KeyCodeModifier::KEYRIGHTSHIFT => 5,
            KeyCodeModifier::KEYRIGHTALT => 6,
            KeyCodeModifier::KEYRIGHTMETA => 7,
        }
    }
}

/// What a kernel key code stands for.
#[derive(Clone, Copy, Debug, PartialEq, Eq, Structural)]
pub enum KeyTarget {
    Key(UsbKeyCode),
    Modifier(KeyCodeModifier),
    Unmapped,
}

/// The table from kernel key codes (`KEY_*` of the input layer) to keys and modifiers.
pub open spec fn spec_key_target(code: u16) -> KeyTarget {
    match code {
        1 => KeyTarget::Key(UsbKeyCode::KEYESC),
        2 => KeyTarget::Key(UsbKeyCode::KEY1),
        3 => KeyTarget::Key(UsbKeyCode::KEY2),
        4 => KeyTarget::Key(UsbKeyCode::KEY3),
        5 => KeyTarget::Key(UsbKeyCode::KEY4),
        6 => KeyTarget::Key(UsbKeyCode::KEY5),
        7 => KeyTarget::Key(UsbKeyCode::KEY6),
        8 => KeyTarget::Key(UsbKeyCode::KEY7),
        9 => KeyTarget::Key(UsbKeyCode::KEY8),
        10 => KeyTarget::Key(UsbKeyCode::KEY9),
        11 => KeyTarget::Key(UsbKeyCode::KEY0),
        12 => KeyTarget::Key(UsbKeyCode::KEYMINUS),
        13 => KeyTarget::Key(UsbKeyCode::KEYEQUAL),
        14 => KeyTarget::Key(UsbKeyCode::KEYBACKSPACE),
        15 => KeyTarget::Key(UsbKeyCode::KEYTAB),
        16 => KeyTarget::Key(UsbKeyCode::KEYQ),
        17 => KeyTarget::Key(UsbKeyCode::KEYW),
        18 => KeyTarget::Key(UsbKeyCode::KEYE),
        19 => KeyTarget::Key(UsbKeyCode::KEYR),
        20 => KeyTarget::Key(UsbKeyCode::KEYT),
        21 => KeyTarget::Key(UsbKeyCode::KEYY),
        22 => KeyTarget::Key(UsbKeyCode::KEYU),
        23 => KeyTarget::Key(UsbKeyCode::KEYI),
        24 => KeyTarget::Key(UsbKeyCode::KEYO),
        25 => KeyTarget::Key(UsbKeyCode::KEYP),
        26 => KeyTarget::Key(UsbKeyCode::KEYLEFTBRACE),
        27 => KeyTarget::Key(UsbKeyCode::KEYRIGHTBRACE),
        28 => KeyTarget::Key(UsbKeyCode::KEYENTER),
        29 => KeyTarget::Modifier(KeyCodeModifier::KEYLEFTCTRL),
        30 => KeyTarget::Key(UsbKeyCode::KEYA),
        31 => KeyTarget::Key(UsbKeyCode::KEYS),
        32 => KeyTarget::Key(UsbKeyCode::KEYD),
        33 => KeyTarget::Key(UsbKeyCode::KEYF),
        34 => KeyTarget::Key(UsbKeyCode::KEYG),
        35 => KeyTarget::Key(UsbKeyCode::KEYH),
        36 => KeyTarget::Key(UsbKeyCode::KEYJ),
        37 => KeyTarget::Key(UsbKeyCode::KEYK),
        38 => KeyTarget::Key(UsbKeyCode::KEYL),
        39 => KeyTarget::Key(UsbKeyCode::KEYSEMICOLON),
        40 => KeyTarget::Key(UsbKeyCode::KEYAPOSTROPHE),
        41 => KeyTarget::Key(UsbKeyCode::KEYGRAVE),
        42 => KeyTarget::Modifier(KeyCodeModifier::KEYLEFTSHIFT),
        43 => KeyTarget::Key(UsbKeyCode::KEYBACKSLASH),
        44 => KeyTarget::Key(UsbKeyCode::KEYZ),
        45 => KeyTarget::Key(UsbKeyCode::KEYX),
        46 => KeyTarget::Key(UsbKeyCode::KEYC),
        47 => KeyTarget::Key(UsbKeyCode::KEYV),
        48 => KeyTarget::Key(UsbKeyCode::KEYB),
        49 => KeyTarget::Key(UsbKeyCode::KEYN),
        50 => KeyTarget::Key(UsbKeyCode::KEYM),
        51 => KeyTarget::Key(UsbKeyCode::KEYCOMMA),
        52 => KeyTarget::Key(UsbKeyCode::KEYDOT),
        53 => KeyTarget::Key(UsbKeyCode::KEYSLASH),
        54 => KeyTarget::Modifier(KeyCodeModifier::KEYRIGHTSHIFT),
        55 => KeyTarget::Key(UsbKeyCode::KEYKPASTERISK),
        56 => KeyTarget::Modifier(KeyCodeModifier::KEYLEFTALT),
        57 => KeyTarget::Key(UsbKeyCode::KEYSPACE),
        58 => KeyTarget::Key(UsbKeyCode::KEYCAPSLOCK),
        69 => KeyTarget::Key(UsbKeyCode::KEYNUMLOCK),
        70 => KeyTarget::Key(UsbKeyCode::KEYSCROLLLOCK),
        71 => KeyTarget::Key(UsbKeyCode::KEYKP7),
        72 => KeyTarget::Key(UsbKeyCode::KEYKP8),
        73 => KeyTarget::Key(UsbKeyCode::KEYKP9),
        74 => KeyTarget::Key(UsbKeyCode::KEYKPMINUS),
        75 => KeyTarget::Key(UsbKeyCode::KEYKP4),
        76 => KeyTarget::Key(UsbKeyCode::KEYKP5),
        77 => KeyTarget::Key(UsbKeyCode::KEYKP6),
        78 => KeyTarget::Key(UsbKeyCode::KEYKPPLUS),
        79 => KeyTarget::Key(UsbKeyCode::KEYKP1),
        80 => KeyTarget::Key(UsbKeyCode::KEYKP2),
        81 => KeyTarget::Key(UsbKeyCode::KEYKP3),
        82 => KeyTarget::Key(UsbKeyCode::KEYKP0),
        83 => KeyTarget::Key(UsbKeyCode::KEYKPDOT),
        86 => KeyTarget::Key(UsbKeyCode::KEY102ND),
        96 => KeyTarget::Key(UsbKeyCode::KEYKPENTER),
        97 => KeyTarget::Modifier(KeyCodeModifier::KEYRIGHTCTRL),
        98 => KeyTarget::Key(UsbKeyCode::KEYKPSLASH),
        99 => KeyTarget::Key(UsbKeyCode::KEYSYSRQ),
        100 => KeyTarget::Modifier(KeyCodeModifier::KEYRIGHTALT),
        102 => KeyTarget::Key(UsbKeyCode::KEYHOME),
        103 => KeyTarget::Key(UsbKeyCode::KEYUP),
        104 => KeyTarget::Key(UsbKeyCode::KEYPAGEUP),
        105 => KeyTarget::Key(UsbKeyCode::KEYLEFT),
        106 => KeyTarget::Key(UsbKeyCode::KEYRIGHT),
        107 => KeyTarget::Key(UsbKeyCode::KEYEND),
        108 => KeyTarget::Key(UsbKeyCode::KEYDOWN),
        109 => KeyTarget::Key(UsbKeyCode::KEYPAGEDOWN),
        110 => KeyTarget::Key(UsbKeyCode::KEYINSERT),
        111 => KeyTarget::Key(UsbKeyCode::KEYDELETE),
        116 => KeyTarget::Key(UsbKeyCode::KEYPOWER),
        117 => KeyTarget::Key(UsbKeyCode::KEYKPEQUAL),
        119 => KeyTarget::Key(UsbKeyCode::KEYPAUSE),
        125 => KeyTarget::Modifier(KeyCodeModifier::KEYLEFTMETA),
        126 => KeyTarget::Modifier(KeyCodeModifier::KEYRIGHTMETA),
        127 => KeyTarget::Key(UsbKeyCode::KEYCOMPOSE),
        128 => KeyTarget::Key(UsbKeyCode::KEYSTOP),
        129 => KeyTarget::Key(UsbKeyCode::KEYAGAIN),
        130 => KeyTarget::Key(UsbKeyCode::KEYPROPS),
        131 => KeyTarget::Key(UsbKeyCode::KEYUNDO),
        132 => KeyTarget::Key(UsbKeyCode::KEYFRONT),
        133 => KeyTarget::Key(UsbKeyCode::KEYCOPY),
        134 => KeyTarget::Key(UsbKeyCode::KEYOPEN),
        135 => KeyTarget::Key(UsbKeyCode::KEYPASTE),
        136 => KeyTarget::Key(UsbKeyCode::KEYFIND),
        137 => KeyTarget::Key(UsbKeyCode::KEYCUT),
        138 => KeyTarget::Key(UsbKeyCode::KEYHELP),
        183 => KeyTarget::Key(UsbKeyCode::KEYF13),
        184 => KeyTarget::Key(UsbKeyCode::KEYF14),
        185 => KeyTarget::Key(UsbKeyCode::KEYF15),
        186 => KeyTarget::Key(UsbKeyCode::KEYF16),
        187 => KeyTarget::Key(UsbKeyCode::KEYF17),
        188 => KeyTarget::Key(UsbKeyCode::KEYF18),
        189 => KeyTarget::Key(UsbKeyCode::KEYF19),
        190 => KeyTarget::Key(UsbKeyCode::KEYF20),
        191 => KeyTarget::Key(UsbKeyCode::KEYF21),
        192 => KeyTarget::Key(UsbKeyCode::KEYF22),
        193 => KeyTarget::Key(UsbKeyCode::KEYF23),
        194 => KeyTarget::Key(UsbKeyCode::KEYF24),
        224 => KeyTarget::Key(UsbKeyCode::KEYF1),
        225 => KeyTarget::Key(UsbKeyCode::KEYF2),
        120 => KeyTarget::Key(UsbKeyCode::KEYF3),
        204 => KeyTarget::Key(UsbKeyCode::KEYF4),
        229 => KeyTarget::Key(UsbKeyCode::KEYF5),
        230 => KeyTarget::Key(UsbKeyCode::KEYF6),
        165 => KeyTarget::Key(UsbKeyCode::KEYF7),
        164 => KeyTarget::Key(UsbKeyCode::KEYF8),
        163 => KeyTarget::Key(UsbKeyCode::KEYF9),
        113 => KeyTarget::Key(UsbKeyCode::KEYF10),
        114 => KeyTarget::Key(UsbKeyCode::KEYF11),
        115 => KeyTarget::Key(UsbKeyCode::KEYF12),
        _ => KeyTarget::Unmapped,
    }
}

/// Looks a kernel key code up in the key table.
#[verifier::when_used_as_spec(spec_key_target)]
pub fn key_target(code: u16) -> (r: KeyTarget)
    ensures
        r == spec_key_target(code),
{
    match code {
        1 => KeyTarget::Key(UsbKeyCode::KEYESC),
        2 => KeyTarget::Key(UsbKeyCode::KEY1),
        3 => KeyTarget::Key(UsbKeyCode::KEY2),
        4 => KeyTarget::Key(UsbKeyCode::KEY3),
        5 => KeyTarget::Key(UsbKeyCode::KEY4),
        6 => KeyTarget::Key(UsbKeyCode::KEY5),
        7 => KeyTarget::Key(UsbKeyCode::KEY6),
        8 => KeyTarget::Key(UsbKeyCode::KEY7),
        9 => KeyTarget::Key(UsbKeyCode::KEY8),
        10 => KeyTarget::Key(UsbKeyCode::KEY9),
        11 => KeyTarget::Key(UsbKeyCode::KEY0),
        12 => KeyTarget::Key(UsbKeyCode::KEYMINUS),
        13 => KeyTarget::Key(UsbKeyCode::KEYEQUAL),
        14 => KeyTarget::Key(UsbKeyCode::KEYBACKSPACE),
        15 => KeyTarget::Key(UsbKeyCode::KEYTAB),
        16 => KeyTarget::Key(UsbKeyCode::KEYQ),
        17 => KeyTarget::Key(UsbKeyCode::KEYW),
        18 => KeyTarget::Key(UsbKeyCode::KEYE),
        19 => KeyTarget::Key(UsbKeyCode::KEYR),
        20 => KeyTarget::Key(UsbKeyCode::KEYT),
        21 => KeyTarget::Key(UsbKeyCode::KEYY),
        22 => KeyTarget::Key(UsbKeyCode::KEYU),
        23 => KeyTarget::Key(UsbKeyCode::KEYI),
        24 => KeyTarget::Key(UsbKeyCode::KEYO),
        25 => KeyTarget::Key(UsbKeyCode::KEYP),
        26 => KeyTarget::Key(UsbKeyCode::KEYLEFTBRACE),
        27 => KeyTarget::Key(UsbKeyCode::KEYRIGHTBRACE),
        28 => KeyTarget::Key(UsbKeyCode::KEYENTER),
        29 => KeyTarget::Modifier(KeyCodeModifier::KEYLEFTCTRL),
        30 => KeyTarget::Key(UsbKeyCode::KEYA),
        31 => KeyTarget::Key(UsbKeyCode::KEYS),
        32 => KeyTarget::Key(UsbKeyCode::KEYD),
        33 => KeyTarget::Key(UsbKeyCode::KEYF),
        34 => KeyTarget::Key(UsbKeyCode::KEYG),
        35 => KeyTarget::Key(UsbKeyCode::KEYH),
        36 => KeyTarget::Key(UsbKeyCode::KEYJ),
        37 => KeyTarget::Key(UsbKeyCode::KEYK),
        38 => KeyTarget::Key(UsbKeyCode::KEYL),
        39 => KeyTarget::Key(UsbKeyCode::KEYSEMICOLON),
        40 => KeyTarget::Key(UsbKeyCode::KEYAPOSTROPHE),
        41 => KeyTarget::Key(UsbKeyCode::KEYGRAVE),
        42 => KeyTarget::Modifier(KeyCodeModifier::KEYLEFTSHIFT),
        43 => KeyTarget::Key(UsbKeyCode::KEYBACKSLASH),
        44 => KeyTarget::Key(UsbKeyCode::KEYZ),
        45 => KeyTarget::Key(UsbKeyCode::KEYX),
        46 => KeyTarget::Key(UsbKeyCode::KEYC),
        47 => KeyTarget::Key(UsbKeyCode::KEYV),
        48 => KeyTarget::Key(UsbKeyCode::KEYB),
        49 => KeyTarget::Key(UsbKeyCode::KEYN),
        50 => KeyTarget::Key(UsbKeyCode::KEYM),
        51 => KeyTarget::Key(UsbKeyCode::KEYCOMMA),
        52 => KeyTarget::Key(UsbKeyCode::KEYDOT),
        53 => KeyTarget::Key(UsbKeyCode::KEYSLASH),
        54 => KeyTarget::Modifier(KeyCodeModifier::KEYRIGHTSHIFT),
        55 => KeyTarget::Key(UsbKeyCode::KEYKPASTERISK),
        56 => KeyTarget::Modifier(KeyCodeModifier::KEYLEFTALT),
        57 => KeyTarget::Key(UsbKeyCode::KEYSPACE),
        58 => KeyTarget::Key(UsbKeyCode::KEYCAPSLOCK),
        69 => KeyTarget::Key(UsbKeyCode::KEYNUMLOCK),
        70 => KeyTarget::Key(UsbKeyCode::KEYSCROLLLOCK),
        71 => KeyTarget::Key(UsbKeyCode::KEYKP7),
        72 => KeyTarget::Key(UsbKeyCode::KEYKP8),
        73 => KeyTarget::Key(UsbKeyCode::KEYKP9),
        74 => KeyTarget::Key(UsbKeyCode::KEYKPMINUS),
        75 => KeyTarget::Key(UsbKeyCode::KEYKP4),
        76 => KeyTarget::Key(UsbKeyCode::KEYKP5),
        77 => KeyTarget::Key(UsbKeyCode::KEYKP6),
        78 => KeyTarget::Key(UsbKeyCode::KEYKPPLUS),
        79 => KeyTarget::Key(UsbKeyCode::KEYKP1),
        80 => KeyTarget::Key(UsbKeyCode::KEYKP2),
        81 => KeyTarget::Key(UsbKeyCode::KEYKP3),
        82 => KeyTarget::Key(UsbKeyCode::KEYKP0),
        83 => KeyTarget::Key(UsbKeyCode::KEYKPDOT),
        86 => KeyTarget::Key(UsbKeyCode::KEY102ND),
        96 => KeyTarget::Key(UsbKeyCode::KEYKPENTER),
        97 => KeyTarget::Modifier(KeyCodeModifier::KEYRIGHTCTRL),
        98 => KeyTarget::Key(UsbKeyCode::KEYKPSLASH),
        99 => KeyTarget::Key(UsbKeyCode::KEYSYSRQ),
        100 => KeyTarget::Modifier(KeyCodeModifier::KEYRIGHTALT),
        102 => KeyTarget::Key(UsbKeyCode::KEYHOME),
        103 => KeyTarget::Key(UsbKeyCode::KEYUP),
        104 => KeyTarget::Key(UsbKeyCode::KEYPAGEUP),
        105 => KeyTarget::Key(UsbKeyCode::KEYLEFT),
        106 => KeyTarget::Key(UsbKeyCode::KEYRIGHT),
        107 => KeyTarget::Key(UsbKeyCode::KEYEND),
        108 => KeyTarget::Key(UsbKeyCode::KEYDOWN),
        109 => KeyTarget::Key(UsbKeyCode::KEYPAGEDOWN),
        110 => KeyTarget::Key(UsbKeyCode::KEYINSERT),
        111 => KeyTarget::Key(UsbKeyCode::KEYDELETE),
        116 => KeyTarget::Key(UsbKeyCode::KEYPOWER),
        117 => KeyTarget::Key(UsbKeyCode::KEYKPEQUAL),
        119 => KeyTarget::Key(UsbKeyCode::KEYPAUSE),
        125 => KeyTarget::Modifier(KeyCodeModifier::KEYLEFTMETA),
        126 => KeyTarget::Modifier(KeyCodeModifier::KEYRIGHTMETA),
        127 => KeyTarget::Key(UsbKeyCode::KEYCOMPOSE),
        128 => KeyTarget::Key(UsbKeyCode::KEYSTOP),
        129 => KeyTarget::Key(UsbKeyCode::KEYAGAIN),
        130 => KeyTarget::Key(UsbKeyCode::KEYPROPS),
        131 => KeyTarget::Key(UsbKeyCode::KEYUNDO),
        132 => KeyTarget::Key(UsbKeyCode::KEYFRONT),
        133 => KeyTarget::Key(UsbKeyCode::KEYCOPY),
        134 => KeyTarget::Key(UsbKeyCode::KEYOPEN),
        135 => KeyTarget::Key(UsbKeyCode::KEYPASTE),
        136 => KeyTarget::Key(UsbKeyCode::KEYFIND),
        137 => KeyTarget::Key(UsbKeyCode::KEYCUT),
        138 => KeyTarget::Key(UsbKeyCode::KEYHELP),
        183 => KeyTarget::Key(UsbKeyCode::KEYF13),
        184 => KeyTarget::Key(UsbKeyCode::KEYF14),
        185 => KeyTarget::Key(UsbKeyCode::KEYF15),
        186 => KeyTarget::Key(UsbKeyCode::KEYF16),
        187 => KeyTarget::Key(UsbKeyCode::KEYF17),
        188 => KeyTarget::Key(UsbKeyCode::KEYF18),
        189 => KeyTarget::Key(UsbKeyCode::KEYF19),
        190 => KeyTarget::Key(UsbKeyCode::KEYF20),
        191 => KeyTarget::Key(UsbKeyCode::KEYF21),
        192 => KeyTarget::Key(UsbKeyCode::KEYF22),
        193 => KeyTarget::Key(UsbKeyCode::KEYF23),
        194 => KeyTarget::Key(UsbKeyCode::KEYF24),
        224 => KeyTarget::Key(UsbKeyCode::KEYF1),
        225 => KeyTarget::Key(UsbKeyCode::KEYF2),
        120 => KeyTarget::Key(UsbKeyCode::KEYF3),
        204 => KeyTarget::Key(UsbKeyCode::KEYF4),
        229 => KeyTarget::Key(UsbKeyCode::KEYF5),
        230 => KeyTarget::Key(UsbKeyCode::KEYF6),
        165 => KeyTarget::Key(UsbKeyCode::KEYF7),
        164 => KeyTarget::Key(UsbKeyCode::KEYF8),
        163 => KeyTarget::Key(UsbKeyCode::KEYF9),
        113 => KeyTarget::Key(UsbKeyCode::KEYF10),
        114 => KeyTarget::Key(UsbKeyCode::KEYF11),
        115 => KeyTarget::Key(UsbKeyCode::KEYF12),
        _ => KeyTarget::Unmapped,
    }
}

} // verus!
