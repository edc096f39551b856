//! Translation between evdev key codes and Windows virtual-key codes.
//!
//! Virtual-key codes travel on the wire; evdev codes are what the kernel reads and writes.

use vstd::prelude::*;

use crate::codes::{
    KEY_0, KEY_1, KEY_2, KEY_3, KEY_4, KEY_5, KEY_6, KEY_7, KEY_8, KEY_9, KEY_A, KEY_APOSTROPHE,
    KEY_B, KEY_BACK, KEY_BACKSLASH, KEY_BACKSPACE, KEY_BOOKMARKS, KEY_BRIGHTNESSDOWN,
    KEY_BRIGHTNESSUP, KEY_C, KEY_CALC, KEY_CAPSLOCK, KEY_CNT, KEY_COMMA, KEY_COMPUTER, KEY_CONFIG,
    KEY_COPY, KEY_CUT, KEY_CYCLEWINDOWS, KEY_D, KEY_DASHBOARD, KEY_DELETE, KEY_DOCUMENTS, KEY_DOT,
    KEY_DOWN, KEY_E, KEY_EDIT, KEY_EJECTCD, KEY_END, KEY_ENTER, KEY_EQUAL, KEY_ESC, KEY_EXIT, KEY_F,
    KEY_F1, KEY_F10, KEY_F11, KEY_F12, KEY_F2, KEY_F3, KEY_F4, KEY_F5, KEY_F6, KEY_F7, KEY_F8,
    KEY_F9, KEY_FIND, KEY_FN, KEY_FN_ESC, KEY_FORWARD, KEY_FRONT, KEY_G, KEY_GRAVE, KEY_H, KEY_HELP,
    KEY_HENKAN, KEY_HIRAGANA, KEY_HOME, KEY_HOMEPAGE, KEY_I, KEY_INSERT, KEY_J, KEY_K, KEY_KATAKANA,
    KEY_KATAKANAHIRAGANA, KEY_KP0, KEY_KP1, KEY_KP2, KEY_KP3, KEY_KP4, KEY_KP5, KEY_KP6, KEY_KP7,
    KEY_KP8, KEY_KP9, KEY_KPASTERISK, KEY_KPDOT, KEY_KPENTER, KEY_KPEQUAL, KEY_KPJPCOMMA,
    KEY_KPMINUS, KEY_KPPLUS, KEY_KPPLUSMINUS, KEY_KPSLASH, KEY_L, KEY_LEFT, KEY_LEFTALT,
    KEY_LEFTBRACE, KEY_LEFTCTRL, KEY_LEFTMETA, KEY_LEFTSHIFT, KEY_LINEFEED, KEY_M, KEY_MAIL,
    KEY_MEDIA, KEY_MENU, KEY_MINUS, KEY_MUHENKAN, KEY_MUTE, KEY_N, KEY_NEW, KEY_NEXTSONG,
    KEY_NUMLOCK, KEY_O, KEY_OPEN, KEY_P, KEY_PAGEDOWN, KEY_PAGEUP, KEY_PASTE, KEY_PAUSE, KEY_PHONE,
    KEY_PLAYPAUSE, KEY_POWER, KEY_PREVIOUSSONG, KEY_Q, KEY_R, KEY_RECORD, KEY_REFRESH, KEY_REWIND,
    KEY_RIGHT, KEY_RIGHTALT, KEY_RIGHTBRACE, KEY_RIGHTCTRL, KEY_RIGHTMETA, KEY_RIGHTSHIFT, KEY_RO,
    KEY_S, KEY_SAVE, KEY_SCALE, KEY_SCROLLLOCK, KEY_SEMICOLON, KEY_SETUP, KEY_SLASH, KEY_SLEEP,
    KEY_SPACE, KEY_STOPCD, KEY_SYSRQ, KEY_T, KEY_TAB, KEY_U, KEY_UNDO, KEY_UP, KEY_V,
    KEY_VOLUMEDOWN, KEY_VOLUMEUP, KEY_W, KEY_WAKEUP, KEY_X, KEY_Y, KEY_Z, KEY_ZENKAKUHANKAKU,
};

verus! {

/// The Windows virtual-key code that stands for an evdev key, if it has one.
pub open spec fn windows_vk(code: u16) -> Option<u16> {
    match code {
        KEY_ESC => Some(0x1B),
        KEY_1 => Some(0x31),
        KEY_2 => Some(0x32),
        KEY_3 => Some(0x33),
        KEY_4 => Some(0x34),
        KEY_5 => Some(0x35),
        KEY_6 => Some(0x36),
        KEY_7 => Some(0x37),
        KEY_8 => Some(0x38),
        KEY_9 => Some(0x39),
        KEY_0 => Some(0x30),
        KEY_MINUS => Some(0xBD),
        KEY_EQUAL => Some(0xBB),
        KEY_BACKSPACE => Some(0x08),
        KEY_TAB => Some(0x09),
        KEY_Q => Some(0x51),
        KEY_W => Some(0x57),
        KEY_E => Some(0x45),
        KEY_R => Some(0x52),
        KEY_T => Some(0x54),
        KEY_Y => Some(0x59),
        KEY_U => Some(0x55),
        KEY_I => Some(0x49),
        KEY_O => Some(0x4F),
        KEY_P => Some(0x50),
        KEY_LEFTBRACE => Some(0xDB),
        KEY_RIGHTBRACE => Some(0xDD),
        KEY_ENTER => Some(0x0D),
        KEY_LEFTCTRL => Some(0xA2),
        KEY_A => Some(0x41),
        KEY_S => Some(0x53),
        KEY_D => Some(0x44),
        KEY_F => Some(0x46),
        KEY_G => Some(0x47),
        KEY_H => Some(0x48),
        KEY_J => Some(0x4A),
        KEY_K => Some(0x4B),
        KEY_L => Some(0x4C),
        KEY_SEMICOLON => Some(0xBA),
        KEY_APOSTROPHE => Some(0xDE),
        KEY_GRAVE => Some(0xC0),
        KEY_LEFTSHIFT => Some(0xA0),
        KEY_BACKSLASH => Some(0xDC),
        KEY_Z => Some(0x5A),
        KEY_X => Some(0x58),
        KEY_C => Some(0x43),
        KEY_V => Some(0x56),
        KEY_B => Some(0x42),
        KEY_N => Some(0x4E),
        KEY_M => Some(0x4D),
        KEY_COMMA => Some(0xBC),
        KEY_DOT => Some(0xBE),
        KEY_SLASH => Some(0xBF),
        KEY_RIGHTSHIFT => Some(0xA1),
        KEY_KPASTERISK => Some(0x6A),
        KEY_LEFTALT => Some(0xA4),
        KEY_SPACE => Some(0x20),
        KEY_CAPSLOCK => Some(0x14),
        KEY_F1 => Some(0x70),
        KEY_F2 => Some(0x71),
        KEY_F3 => Some(0x72),
        KEY_F4 => Some(0x73),
        KEY_F5 => Some(0x74),
        KEY_F6 => Some(0x75),
        KEY_F7 => Some(0x76),
        KEY_F8 => Some(0x77),
        KEY_F9 => Some(0x78),
        KEY_F10 => Some(0x79),
        KEY_F11 => Some(0x7A),
        KEY_F12 => Some(0x7B),
        KEY_NUMLOCK => Some(0x90),
        KEY_SCROLLLOCK => Some(0x91),
        KEY_KP7 => Some(0x67),
        KEY_KP8 => Some(0x68),
        KEY_KP9 => Some(0x69),
        KEY_KPMINUS => Some(0x6D),
        KEY_KP4 => Some(0x64),
        KEY_KP5 => Some(0x65),
        KEY_KP6 => Some(0x66),
        KEY_KPPLUS => Some(0x6B),
        KEY_KP1 => Some(0x61),
        KEY_KP2 => Some(0x62),
        KEY_KP3 => Some(0x63),
        KEY_KP0 => Some(0x60),
        KEY_KPDOT => Some(0x6E),
        KEY_KPENTER => Some(0x6C),
        KEY_RIGHTCTRL => Some(0xA3),
        KEY_KPSLASH => Some(0x6F),
        KEY_SYSRQ => Some(0x2C),
        KEY_RIGHTALT => Some(0xA5),
        KEY_HOME => Some(0x24),
        KEY_UP => Some(0x26),
        KEY_PAGEUP => Some(0x21),
        KEY_LEFT => Some(0x25),
        KEY_RIGHT => Some(0x27),
        KEY_END => Some(0x23),
        KEY_DOWN => Some(0x28),
        KEY_PAGEDOWN => Some(0x22),
        KEY_INSERT => Some(0x2D),
        KEY_DELETE => Some(0x2E),
        KEY_PAUSE => Some(0x13),
        KEY_LEFTMETA => Some(0x5B),
        KEY_RIGHTMETA => Some(0x5C),
        KEY_MUTE => Some(0xAD),
        KEY_VOLUMEDOWN => Some(0xAE),
        KEY_VOLUMEUP => Some(0xAF),
        KEY_POWER => Some(0x5E),
        KEY_SLEEP => Some(0x5F),
        KEY_WAKEUP => Some(0xE3),
        KEY_MAIL => Some(0xB4),
        KEY_BOOKMARKS => Some(0xAB),
        KEY_COMPUTER => Some(0xB5),
        KEY_BACK => Some(0xA6),
        KEY_FORWARD => Some(0xA7),
        KEY_EJECTCD => Some(0xE2),
        KEY_NEXTSONG => Some(0xB0),
        KEY_PLAYPAUSE => Some(0xB3),
        KEY_PREVIOUSSONG => Some(0xB1),
        KEY_STOPCD => Some(0xB2),
        KEY_RECORD => Some(0xA2),
        KEY_REWIND => Some(0xA4),
        KEY_HOMEPAGE => Some(0xAC),
        KEY_REFRESH => Some(0xA8),
        _ => None,
    }
}

/// The evdev key that stands for a Windows virtual-key code, if it has one.
pub open spec fn evdev_key(vk: u16) -> Option<u16> {
    match vk {
        0x1B => Some(KEY_ESC),
        0x31 => Some(KEY_1),
        0x32 => Some(KEY_2),
        0x33 => Some(KEY_3),
        0x34 => Some(KEY_4),
        0x35 => Some(KEY_5),
        0x36 => Some(KEY_6),
        0x37 => Some(KEY_7),
        0x38 => Some(KEY_8),
        0x39 => Some(KEY_9),
        0x30 => Some(KEY_0),
        0xBD => Some(KEY_MINUS),
        0xBB => Some(KEY_EQUAL),
        0x08 => Some(KEY_BACKSPACE),
        0x09 => Some(KEY_TAB),
        0x51 => Some(KEY_Q),
        0x57 => Some(KEY_W),
        0x45 => Some(KEY_E),
        0x52 => Some(KEY_R),
        0x54 => Some(KEY_T),
        0x59 => Some(KEY_Y),
        0x55 => Some(KEY_U),
        0x49 => Some(KEY_I),
        0x4F => Some(KEY_O),
        0x50 => Some(KEY_P),
        0xDB => Some(KEY_LEFTBRACE),
        0xDD => Some(KEY_RIGHTBRACE),
        0x0D => Some(KEY_ENTER),
        0xA2 => Some(KEY_LEFTCTRL),
        0x41 => Some(KEY_A),
        0x53 => Some(KEY_S),
        0x44 => Some(KEY_D),
        0x46 => Some(KEY_F),
        0x47 => Some(KEY_G),
        0x48 => Some(KEY_H),
        0x4A => Some(KEY_J),
        0x4B => Some(KEY_K),
        0x4C => Some(KEY_L),
        0xBA => Some(KEY_SEMICOLON),
        0xDE => Some(KEY_APOSTROPHE),
        0xC0 => Some(KEY_GRAVE),
        0xA0 => Some(KEY_LEFTSHIFT),
        0xDC => Some(KEY_BACKSLASH),
        0x5A => Some(KEY_Z),
        0x58 => Some(KEY_X),
        0x43 => Some(KEY_C),
        0x56 => Some(KEY_V),
        0x42 => Some(KEY_B),
        0x4E => Some(KEY_N),
        0x4D => Some(KEY_M),
        0xBC => Some(KEY_COMMA),
        0xBE => Some(KEY_DOT),
        0xBF => Some(KEY_SLASH),
        0xA1 => Some(KEY_RIGHTSHIFT),
        0x6A => Some(KEY_KPASTERISK),
        0xA4 => Some(KEY_LEFTALT),
        0x20 => Some(KEY_SPACE),
        0x14 => Some(KEY_CAPSLOCK),
        0x70 => Some(KEY_F1),
        0x71 => Some(KEY_F2),
        0x72 => Some(KEY_F3),
        0x73 => Some(KEY_F4),
        0x74 => Some(KEY_F5),
        0x75 => Some(KEY_F6),
        0x76 => Some(KEY_F7),
        0x77 => Some(KEY_F8),
        0x78 => Some(KEY_F9),
        0x79 => Some(KEY_F10),
        0x7A => Some(KEY_F11),
        0x7B => Some(KEY_F12),
        0x90 => Some(KEY_NUMLOCK),
        0x91 => Some(KEY_SCROLLLOCK),
        0x67 => Some(KEY_KP7),
        0x68 => Some(KEY_KP8),
        0x69 => Some(KEY_KP9),
        0x6D => Some(KEY_KPMINUS),
        0x64 => Some(KEY_KP4),
        0x65 => Some(KEY_KP5),
        0x66 => Some(KEY_KP6),
        0x6B => Some(KEY_KPPLUS),
        0x61 => Some(KEY_KP1),
        0x62 => Some(KEY_KP2),
        0x63 => Some(KEY_KP3),
        0x60 => Some(KEY_KP0),
        0x6E => Some(KEY_KPDOT),
        0x6C => Some(KEY_KPENTER),
        0xA3 => Some(KEY_RIGHTCTRL),
        0x6F => Some(KEY_KPSLASH),
        0x2C => Some(KEY_SYSRQ),
        0xA5 => Some(KEY_RIGHTALT),
        0x24 => Some(KEY_HOME),
        0x26 => Some(KEY_UP),
        0x21 => Some(KEY_PAGEUP),
        0x25 => Some(KEY_LEFT),
        0x27 => Some(KEY_RIGHT),
        0x23 => Some(KEY_END),
        0x28 => Some(KEY_DOWN),
        0x22 => Some(KEY_PAGEDOWN),
        0x2D => Some(KEY_INSERT),
        0x2E => Some(KEY_DELETE),
        0x13 => Some(KEY_PAUSE),
        0x5B => Some(KEY_LEFTMETA),
        0x5C => Some(KEY_RIGHTMETA),
        0xAD => Some(KEY_MUTE),
        0xAE => Some(KEY_VOLUMEDOWN),
        0xAF => Some(KEY_VOLUMEUP),
        0x5E => Some(KEY_POWER),
        0x5F => Some(KEY_SLEEP),
        0xE3 => Some(KEY_WAKEUP),
        0xB4 => Some(KEY_MAIL),
        0xAB => Some(KEY_BOOKMARKS),
        0xB5 => Some(KEY_COMPUTER),
        0xA6 => Some(KEY_BACK),
        0xA7 => Some(KEY_FORWARD),
        0xB0 => Some(KEY_NEXTSONG),
        0xB3 => Some(KEY_PLAYPAUSE),
        0xB1 => Some(KEY_PREVIOUSSONG),
        0xB2 => Some(KEY_STOPCD),
        0xAC => Some(KEY_HOMEPAGE),
        0xA8 => Some(KEY_REFRESH),
        _ => None,
    }
}

/// The keys that the virtual keyboard declares.
pub open spec fn is_supported_key(code: u16) -> bool {
    ||| code == KEY_ESC
    ||| code == KEY_1
    ||| code == KEY_2
    ||| code == KEY_3
    ||| code == KEY_4
    ||| code == KEY_5
    ||| code == KEY_6
    ||| code == KEY_7
    ||| code == KEY_8
    ||| code == KEY_9
    ||| code == KEY_0
    ||| code == KEY_MINUS
    ||| code == KEY_EQUAL
    ||| code == KEY_BACKSPACE
    ||| code == KEY_TAB
    ||| code == KEY_Q
    ||| code == KEY_W
    ||| code == KEY_E
    ||| code == KEY_R
    ||| code == KEY_T
    ||| code == KEY_Y
    ||| code == KEY_U
    ||| code == KEY_I
    ||| code == KEY_O
    ||| code == KEY_P
    ||| code == KEY_LEFTBRACE
    ||| code == KEY_RIGHTBRACE
    ||| code == KEY_ENTER
    ||| code == KEY_LEFTCTRL
    ||| code == KEY_A
    ||| code == KEY_S
    ||| code == KEY_D
    ||| code == KEY_F
    ||| code == KEY_G
    ||| code == KEY_H
    ||| code == KEY_J
    ||| code == KEY_K
    ||| code == KEY_L
    ||| code == KEY_SEMICOLON
    ||| code == KEY_APOSTROPHE
    ||| code == KEY_GRAVE
    ||| code == KEY_LEFTSHIFT
    ||| code == KEY_BACKSLASH
    ||| code == KEY_Z
    ||| code == KEY_X
    ||| code == KEY_C
    ||| code == KEY_V
    ||| code == KEY_B
    ||| code == KEY_N
    ||| code == KEY_M
    ||| code == KEY_COMMA
    ||| code == KEY_DOT
    ||| code == KEY_SLASH
    ||| code == KEY_RIGHTSHIFT
    ||| code == KEY_KPASTERISK
    ||| code == KEY_LEFTALT
    ||| code == KEY_SPACE
    ||| code == KEY_CAPSLOCK
    ||| code == KEY_F1
    ||| code == KEY_F2
    ||| code == KEY_F3
    ||| code == KEY_F4
    ||| code == KEY_F5
    ||| code == KEY_F6
    ||| code == KEY_F7
    ||| code == KEY_F8
    ||| code == KEY_F9
    ||| code == KEY_F10
    ||| code == KEY_F11
    ||| code == KEY_F12
    ||| code == KEY_NUMLOCK
    ||| code == KEY_SCROLLLOCK
    ||| code == KEY_KP7
    ||| code == KEY_KP8
    ||| code == KEY_KP9
    ||| code == KEY_KPMINUS
    ||| code == KEY_KP4
    ||| code == KEY_KP5
    ||| code == KEY_KP6
    ||| code == KEY_KPPLUS
    ||| code == KEY_KP1
    ||| code == KEY_KP2
    ||| code == KEY_KP3
    ||| code == KEY_KP0
    ||| code == KEY_KPDOT
    ||| code == KEY_RO
    ||| code == KEY_KPENTER
    ||| code == KEY_RIGHTCTRL
    ||| code == KEY_KPSLASH
    ||| code == KEY_SYSRQ
    ||| code == KEY_RIGHTALT
    ||| code == KEY_LINEFEED
    ||| code == KEY_HOME
    ||| code == KEY_UP
    ||| code == KEY_PAGEUP
    ||| code == KEY_LEFT
    ||| code == KEY_RIGHT
    ||| code == KEY_END
    ||| code == KEY_DOWN
    ||| code == KEY_PAGEDOWN
    ||| code == KEY_INSERT
    ||| code == KEY_DELETE
    ||| code == KEY_PAUSE
    ||| code == KEY_KPEQUAL
    ||| code == KEY_KPPLUSMINUS
    ||| code == KEY_FIND
    ||| code == KEY_UNDO
    ||| code == KEY_FRONT
    ||| code == KEY_COPY
    ||| code == KEY_OPEN
    ||| code == KEY_PASTE
    ||| code == KEY_CUT
    ||| code == KEY_HELP
    ||| code == KEY_MENU
    ||| code == KEY_CALC
    ||| code == KEY_SETUP
    ||| code == KEY_SLEEP
    ||| code == KEY_WAKEUP
    ||| code == KEY_LEFTMETA
    ||| code == KEY_RIGHTMETA
    ||| code == KEY_MAIL
    ||| code == KEY_BOOKMARKS
    ||| code == KEY_COMPUTER
    ||| code == KEY_BACK
    ||| code == KEY_FORWARD
    ||| code == KEY_EJECTCD
    ||| code == KEY_NEXTSONG
    ||| code == KEY_PLAYPAUSE
    ||| code == KEY_PREVIOUSSONG
    ||| code == KEY_STOPCD
    ||| code == KEY_RECORD
    ||| code == KEY_REWIND
    ||| code == KEY_PHONE
    ||| code == KEY_CONFIG
    ||| code == KEY_HOMEPAGE
    ||| code == KEY_REFRESH
    ||| code == KEY_EXIT
    ||| code == KEY_EDIT
    ||| code == KEY_NEW
    ||| code == KEY_SAVE
    ||| code == KEY_DOCUMENTS
    ||| code == KEY_BRIGHTNESSDOWN
    ||| code == KEY_BRIGHTNESSUP
    ||| code == KEY_MEDIA
    ||| code == KEY_DASHBOARD
    ||| code == KEY_SCALE
    ||| code == KEY_CYCLEWINDOWS
    ||| code == KEY_FN
    ||| code == KEY_FN_ESC
    ||| code == KEY_ZENKAKUHANKAKU
    ||| code == KEY_KATAKANA
    ||| code == KEY_HIRAGANA
    ||| code == KEY_HENKAN
    ||| code == KEY_KATAKANAHIRAGANA
    ||| code == KEY_MUHENKAN
    ||| code == KEY_KPJPCOMMA
    ||| code == KEY_MUTE
    ||| code == KEY_VOLUMEDOWN
    ||| code == KEY_VOLUMEUP
    ||| code == KEY_POWER
}

/// The keys whose virtual-key code does not lead back to them.
///
/// `KEY_RECORD` and `KEY_REWIND` share the code of the left control and left alt keys, and
/// nothing is found under the code of `KEY_EJECTCD`.
pub open spec fn is_one_way_key(code: u16) -> bool {
    code == KEY_EJECTCD || code == KEY_RECORD || code == KEY_REWIND
}

/// Looks up the virtual-key code of an evdev key.
pub fn evdev_key_to_windows_vk(code: u16) -> (vk: Option<u16>)
    ensures
        vk == windows_vk(code),
{
    Some(match code {
        KEY_ESC => 0x1B,
        KEY_1 => 0x31,
        KEY_2 => 0x32,
        KEY_3 => 0x33,
        KEY_4 => 0x34,
        KEY_5 => 0x35,
        KEY_6 => 0x36,
        KEY_7 => 0x37,
        KEY_8 => 0x38,
        KEY_9 => 0x39,
        KEY_0 => 0x30,
        KEY_MINUS => 0xBD,
        KEY_EQUAL => 0xBB,
        KEY_BACKSPACE => 0x08,
        KEY_TAB => 0x09,
        KEY_Q => 0x51,
        KEY_W => 0x57,
        KEY_E => 0x45,
        KEY_R => 0x52,
        KEY_T => 0x54,
        KEY_Y => 0x59,
        KEY_U => 0x55,
        KEY_I => 0x49,
        KEY_O => 0x4F,
        KEY_P => 0x50,
        KEY_LEFTBRACE => 0xDB,
        KEY_RIGHTBRACE => 0xDD,
        KEY_ENTER => 0x0D,
        KEY_LEFTCTRL => 0xA2,
        KEY_A => 0x41,
        KEY_S => 0x53,
        KEY_D => 0x44,
        KEY_F => 0x46,
        KEY_G => 0x47,
        KEY_H => 0x48,
        KEY_J => 0x4A,
        KEY_K => 0x4B,
        KEY_L => 0x4C,
        KEY_SEMICOLON => 0xBA,
        KEY_APOSTROPHE => 0xDE,
        KEY_GRAVE => 0xC0,
        KEY_LEFTSHIFT => 0xA0,
        KEY_BACKSLASH => 0xDC,
        KEY_Z => 0x5A,
        KEY_X => 0x58,
        KEY_C => 0x43,
        KEY_V => 0x56,
        KEY_B => 0x42,
        KEY_N => 0x4E,
        KEY_M => 0x4D,
        KEY_COMMA => 0xBC,
        KEY_DOT => 0xBE,
        KEY_SLASH => 0xBF,
        KEY_RIGHTSHIFT => 0xA1,
        KEY_KPASTERISK => 0x6A,
        KEY_LEFTALT => 0xA4,
        KEY_SPACE => 0x20,
        KEY_CAPSLOCK => 0x14,
        KEY_F1 => 0x70,
        KEY_F2 => 0x71,
        KEY_F3 => 0x72,
        KEY_F4 => 0x73,
        KEY_F5 => 0x74,
        KEY_F6 => 0x75,
        KEY_F7 => 0x76,
        KEY_F8 => 0x77,
        KEY_F9 => 0x78,
        KEY_F10 => 0x79,
        KEY_F11 => 0x7A,
        KEY_F12 => 0x7B,
        KEY_NUMLOCK => 0x90,
        KEY_SCROLLLOCK => 0x91,
        KEY_KP7 => 0x67,
        KEY_KP8 => 0x68,
        KEY_KP9 => 0x69,
        KEY_KPMINUS => 0x6D,
        KEY_KP4 => 0x64,
        KEY_KP5 => 0x65,
        KEY_KP6 => 0x66,
        KEY_KPPLUS => 0x6B,
        KEY_KP1 => 0x61,
        KEY_KP2 => 0x62,
        KEY_KP3 => 0x63,
        KEY_KP0 => 0x60,
        KEY_KPDOT => 0x6E,
        KEY_KPENTER => 0x6C,
        KEY_RIGHTCTRL => 0xA3,
        KEY_KPSLASH => 0x6F,
        KEY_SYSRQ => 0x2C,
        KEY_RIGHTALT => 0xA5,
        KEY_HOME => 0x24,
        KEY_UP => 0x26,
        KEY_PAGEUP => 0x21,
        KEY_LEFT => 0x25,
        KEY_RIGHT => 0x27,
        KEY_END => 0x23,
        KEY_DOWN => 0x28,
        KEY_PAGEDOWN => 0x22,
        KEY_INSERT => 0x2D,
        KEY_DELETE => 0x2E,
        KEY_PAUSE => 0x13,
        KEY_LEFTMETA => 0x5B,
        KEY_RIGHTMETA => 0x5C,
        KEY_MUTE => 0xAD,
        KEY_VOLUMEDOWN => 0xAE,
        KEY_VOLUMEUP => 0xAF,
        KEY_POWER => 0x5E,
        KEY_SLEEP => 0x5F,
        KEY_WAKEUP => 0xE3,
        KEY_MAIL => 0xB4,
        KEY_BOOKMARKS => 0xAB,
        KEY_COMPUTER => 0xB5,
        KEY_BACK => 0xA6,
        KEY_FORWARD => 0xA7,
        KEY_EJECTCD => 0xE2,
        KEY_NEXTSONG => 0xB0,
        KEY_PLAYPAUSE => 0xB3,
        KEY_PREVIOUSSONG => 0xB1,
        KEY_STOPCD => 0xB2,
        KEY_RECORD => 0xA2,
        KEY_REWIND => 0xA4,
        KEY_HOMEPAGE => 0xAC,
        KEY_REFRESH => 0xA8,
        _ => return None,
    })
}

/// Looks up the evdev key of a virtual-key code.
pub fn windows_vk_to_evdev_key(vk: u16) -> (code: Option<u16>)
    ensures
        code == evdev_key(vk),
{
    Some(match vk {
        0x1B => KEY_ESC,
        0x31 => KEY_1,
        0x32 => KEY_2,
        0x33 => KEY_3,
        0x34 => KEY_4,
        0x35 => KEY_5,
        0x36 => KEY_6,
        0x37 => KEY_7,
        0x38 => KEY_8,
        0x39 => KEY_9,
        0x30 => KEY_0,
        0xBD => KEY_MINUS,
        0xBB => KEY_EQUAL,
        0x08 => KEY_BACKSPACE,
        0x09 => KEY_TAB,
        0x51 => KEY_Q,
        0x57 => KEY_W,
        0x45 => KEY_E,
        0x52 => KEY_R,
        0x54 => KEY_T,
        0x59 => KEY_Y,
        0x55 => KEY_U,
        0x49 => KEY_I,
        0x4F => KEY_O,
        0x50 => KEY_P,
        0xDB => KEY_LEFTBRACE,
        0xDD => KEY_RIGHTBRACE,
        0x0D => KEY_ENTER,
        0xA2 => KEY_LEFTCTRL,
        0x41 => KEY_A,
        0x53 => KEY_S,
        0x44 => KEY_D,
        0x46 => KEY_F,
        0x47 => KEY_G,
        0x48 => KEY_H,
        0x4A => KEY_J,
        0x4B => KEY_K,
        0x4C => KEY_L,
        0xBA => KEY_SEMICOLON,
        0xDE => KEY_APOSTROPHE,
        0xC0 => KEY_GRAVE,
        0xA0 => KEY_LEFTSHIFT,
        0xDC => KEY_BACKSLASH,
        0x5A => KEY_Z,
        0x58 => KEY_X,
        0x43 => KEY_C,
        0x56 => KEY_V,
        0x42 => KEY_B,
        0x4E => KEY_N,
        0x4D => KEY_M,
        0xBC => KEY_COMMA,
        0xBE => KEY_DOT,
        0xBF => KEY_SLASH,
        0xA1 => KEY_RIGHTSHIFT,
        0x6A => KEY_KPASTERISK,
        0xA4 => KEY_LEFTALT,
        0x20 => KEY_SPACE,
        0x14 => KEY_CAPSLOCK,
        0x70 => KEY_F1,
        0x71 => KEY_F2,
        0x72 => KEY_F3,
        0x73 => KEY_F4,
        0x74 => KEY_F5,
        0x75 => KEY_F6,
        0x76 => KEY_F7,
        0x77 => KEY_F8,
        0x78 => KEY_F9,
        0x79 => KEY_F10,
        0x7A => KEY_F11,
        0x7B => KEY_F12,
        0x90 => KEY_NUMLOCK,
        0x91 => KEY_SCROLLLOCK,
        0x67 => KEY_KP7,
        0x68 => KEY_KP8,
        0x69 => KEY_KP9,
        0x6D => KEY_KPMINUS,
        0x64 => KEY_KP4,
        0x65 => KEY_KP5,
        0x66 => KEY_KP6,
        0x6B => KEY_KPPLUS,
        0x61 => KEY_KP1,
        0x62 => KEY_KP2,
        0x63 => KEY_KP3,
        0x60 => KEY_KP0,
        0x6E => KEY_KPDOT,
        0x6C => KEY_KPENTER,
        0xA3 => KEY_RIGHTCTRL,
        0x6F => KEY_KPSLASH,
        0x2C => KEY_SYSRQ,
        0xA5 => KEY_RIGHTALT,
        0x24 => KEY_HOME,
        0x26 => KEY_UP,
        0x21 => KEY_PAGEUP,
        0x25 => KEY_LEFT,
        0x27 => KEY_RIGHT,
        0x23 => KEY_END,
        0x28 => KEY_DOWN,
        0x22 => KEY_PAGEDOWN,
        0x2D => KEY_INSERT,
        0x2E => KEY_DELETE,
        0x13 => KEY_PAUSE,
        0x5B => KEY_LEFTMETA,
        0x5C => KEY_RIGHTMETA,
        0xAD => KEY_MUTE,
        0xAE => KEY_VOLUMEDOWN,
        0xAF => KEY_VOLUMEUP,
        0x5E => KEY_POWER,
        0x5F => KEY_SLEEP,
        0xE3 => KEY_WAKEUP,
        0xB4 => KEY_MAIL,
        0xAB => KEY_BOOKMARKS,
        0xB5 => KEY_COMPUTER,
        0xA6 => KEY_BACK,
        0xA7 => KEY_FORWARD,
        0xB0 => KEY_NEXTSONG,
        0xB3 => KEY_PLAYPAUSE,
        0xB1 => KEY_PREVIOUSSONG,
        0xB2 => KEY_STOPCD,
        0xAC => KEY_HOMEPAGE,
        0xA8 => KEY_REFRESH,
        _ => return None,
    })
}

/// Whether the virtual keyboard declares a key.
fn supports(code: u16) -> (supported: bool)
    ensures
        supported == is_supported_key(code),
{
    match code {
        KEY_ESC | KEY_1 | KEY_2 | KEY_3 | KEY_4 | KEY_5 | KEY_6 | KEY_7 | KEY_8 | KEY_9 |
        KEY_0 | KEY_MINUS | KEY_EQUAL | KEY_BACKSPACE | KEY_TAB | KEY_Q | KEY_W | KEY_E |
        KEY_R | KEY_T | KEY_Y | KEY_U | KEY_I | KEY_O | KEY_P | KEY_LEFTBRACE |
        KEY_RIGHTBRACE | KEY_ENTER | KEY_LEFTCTRL | KEY_A | KEY_S | KEY_D | KEY_F | KEY_G |
        KEY_H | KEY_J | KEY_K | KEY_L | KEY_SEMICOLON | KEY_APOSTROPHE | KEY_GRAVE |
        KEY_LEFTSHIFT | KEY_BACKSLASH | KEY_Z | KEY_X | KEY_C | KEY_V | KEY_B | KEY_N | KEY_M |
        KEY_COMMA | KEY_DOT | KEY_SLASH | KEY_RIGHTSHIFT | KEY_KPASTERISK | KEY_LEFTALT |
        KEY_SPACE | KEY_CAPSLOCK | KEY_F1 | KEY_F2 | KEY_F3 | KEY_F4 | KEY_F5 | KEY_F6 |
        KEY_F7 | KEY_F8 | KEY_F9 | KEY_F10 | KEY_F11 | KEY_F12 | KEY_NUMLOCK | KEY_SCROLLLOCK |
        KEY_KP7 | KEY_KP8 | KEY_KP9 | KEY_KPMINUS | KEY_KP4 | KEY_KP5 | KEY_KP6 | KEY_KPPLUS |
        KEY_KP1 | KEY_KP2 | KEY_KP3 | KEY_KP0 | KEY_KPDOT | KEY_RO | KEY_KPENTER |
        KEY_RIGHTCTRL | KEY_KPSLASH | KEY_SYSRQ | KEY_RIGHTALT | KEY_LINEFEED | KEY_HOME |
        KEY_UP | KEY_PAGEUP | KEY_LEFT | KEY_RIGHT | KEY_END | KEY_DOWN | KEY_PAGEDOWN |
        KEY_INSERT | KEY_DELETE | KEY_PAUSE | KEY_KPEQUAL | KEY_KPPLUSMINUS | KEY_FIND |
        KEY_UNDO | KEY_FRONT | KEY_COPY | KEY_OPEN | KEY_PASTE | KEY_CUT | KEY_HELP |
        KEY_MENU | KEY_CALC | KEY_SETUP | KEY_SLEEP | KEY_WAKEUP | KEY_LEFTMETA |
        KEY_RIGHTMETA | KEY_MAIL | KEY_BOOKMARKS | KEY_COMPUTER | KEY_BACK | KEY_FORWARD |
        KEY_EJECTCD | KEY_NEXTSONG | KEY_PLAYPAUSE | KEY_PREVIOUSSONG | KEY_STOPCD |
        KEY_RECORD | KEY_REWIND | KEY_PHONE | KEY_CONFIG | KEY_HOMEPAGE | KEY_REFRESH |
        KEY_EXIT | KEY_EDIT | KEY_NEW | KEY_SAVE | KEY_DOCUMENTS | KEY_BRIGHTNESSDOWN |
        KEY_BRIGHTNESSUP | KEY_MEDIA | KEY_DASHBOARD | KEY_SCALE | KEY_CYCLEWINDOWS | KEY_FN |
        KEY_FN_ESC | KEY_ZENKAKUHANKAKU | KEY_KATAKANA | KEY_HIRAGANA | KEY_HENKAN |
        KEY_KATAKANAHIRAGANA | KEY_MUHENKAN | KEY_KPJPCOMMA | KEY_MUTE | KEY_VOLUMEDOWN |
        KEY_VOLUMEUP | KEY_POWER => true,
        _ => false,
    }
}

/// All the keys that the virtual keyboard declares, each of them once.
pub fn supported_keyboard_codes() -> (codes: Vec<u16>)
    ensures
        codes@.no_duplicates(),
        forall|code: u16| #[trigger] codes@.contains(code) <==> is_supported_key(code),
        forall|i: int| 0 <= i < codes@.len() ==> #[trigger] codes@[i] < KEY_CNT,
{
    let mut codes: Vec<u16> = Vec::new();
    let mut code: u16 = 0;
    while code < KEY_CNT
        invariant
            code <= KEY_CNT,
            forall|i: int| 0 <= i < codes@.len() ==> #[trigger] codes@[i] < code,
            forall|i: int, j: int| 0 <= i < j < codes@.len() ==> codes@[i] < codes@[j],
            forall|c: u16| #[trigger] codes@.contains(c) <==> c < code && is_supported_key(c),
        decreases KEY_CNT - code,
    {
        let ghost before = codes@;
        if supports(code) {
            codes.push(code);
            assert forall|c: u16| #[trigger]
                codes@.contains(c) <==> c < code + 1 && is_supported_key(c) by {
                assert(codes@[before.len() as int] == code);
                if before.contains(c) {
                    let i = before.index_of(c);
                    assert(codes@[i] == c);
                }
                if codes@.contains(c) && c != code {
                    let i = codes@.index_of(c);
                    assert(before[i] == c);
                }
            }
        }
        code = code + 1;
    }
    codes
}

/// What a virtual-key code is translated to is translated back to the same code.
pub proof fn law_vk_round_trip(vk: u16)
    requires
        evdev_key(vk) is Some,
    ensures
        windows_vk(evdev_key(vk)->0) == Some(vk),
{
}

/// What a key is translated to is translated back to the same key, but for the keys whose
/// code is taken by another key or by none.
pub proof fn law_key_round_trip(code: u16)
    requires
        windows_vk(code) is Some,
        !is_one_way_key(code),
    ensures
        evdev_key(windows_vk(code)->0) == Some(code),
{
}

/// Every key that has a virtual-key code, and every key that a virtual-key code stands for, is
/// declared by the virtual keyboard.
pub proof fn law_mapped_keys_are_supported(code: u16, vk: u16)
    ensures
        windows_vk(code) is Some ==> is_supported_key(code),
        evdev_key(vk) is Some ==> is_supported_key(evdev_key(vk)->0),
{
}

/// Beside the keys that have a virtual-key code, the virtual keyboard declares just these.
pub proof fn law_keys_declared_without_a_code(code: u16)
    requires
        windows_vk(code) is None,
    ensures
        is_supported_key(code) <==> set![
            KEY_RO, KEY_LINEFEED, KEY_KPEQUAL, KEY_KPPLUSMINUS, KEY_FIND, KEY_UNDO, KEY_FRONT,
            KEY_COPY, KEY_OPEN, KEY_PASTE, KEY_CUT, KEY_HELP, KEY_MENU, KEY_CALC, KEY_SETUP,
            KEY_PHONE, KEY_CONFIG, KEY_EXIT, KEY_EDIT, KEY_NEW, KEY_SAVE, KEY_DOCUMENTS,
            KEY_BRIGHTNESSDOWN, KEY_BRIGHTNESSUP, KEY_MEDIA, KEY_DASHBOARD, KEY_SCALE,
            KEY_CYCLEWINDOWS, KEY_FN, KEY_FN_ESC, KEY_ZENKAKUHANKAKU, KEY_KATAKANA, KEY_HIRAGANA,
            KEY_HENKAN, KEY_KATAKANAHIRAGANA, KEY_MUHENKAN, KEY_KPJPCOMMA,
        ].contains(code),
{
}

} // verus!
