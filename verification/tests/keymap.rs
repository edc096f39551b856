//! The key tables.

use mkvm::codes;
use mkvm::keymap::{
    evdev_key_to_windows_vk, supported_keyboard_codes, windows_vk_to_evdev_key,
};

#[test]
fn key_numbers_are_those_of_evdev() {
    let pairs = [
        (codes::KEY_ESC, evdev::KeyCode::KEY_ESC),
        (codes::KEY_1, evdev::KeyCode::KEY_1),
        (codes::KEY_2, evdev::KeyCode::KEY_2),
        (codes::KEY_3, evdev::KeyCode::KEY_3),
        (codes::KEY_4, evdev::KeyCode::KEY_4),
        (codes::KEY_5, evdev::KeyCode::KEY_5),
        (codes::KEY_6, evdev::KeyCode::KEY_6),
        (codes::KEY_7, evdev::KeyCode::KEY_7),
        (codes::KEY_8, evdev::KeyCode::KEY_8),
        (codes::KEY_9, evdev::KeyCode::KEY_9),
        (codes::KEY_0, evdev::KeyCode::KEY_0),
        (codes::KEY_MINUS, evdev::KeyCode::KEY_MINUS),
        (codes::KEY_EQUAL, evdev::KeyCode::KEY_EQUAL),
        (codes::KEY_BACKSPACE, evdev::KeyCode::KEY_BACKSPACE),
        (codes::KEY_TAB, evdev::KeyCode::KEY_TAB),
        (codes::KEY_Q, evdev::KeyCode::KEY_Q),
        (codes::KEY_W, evdev::KeyCode::KEY_W),
        (codes::KEY_E, evdev::KeyCode::KEY_E),
        (codes::KEY_R, evdev::KeyCode::KEY_R),
        (codes::KEY_T, evdev::KeyCode::KEY_T),
        (codes::KEY_Y, evdev::KeyCode::KEY_Y),
        (codes::KEY_U, evdev::KeyCode::KEY_U),
        (codes::KEY_I, evdev::KeyCode::KEY_I),
        (codes::KEY_O, evdev::KeyCode::KEY_O),
        (codes::KEY_P, evdev::KeyCode::KEY_P),
        (codes::KEY_LEFTBRACE, evdev::KeyCode::KEY_LEFTBRACE),
        (codes::KEY_RIGHTBRACE, evdev::KeyCode::KEY_RIGHTBRACE),
        (codes::KEY_ENTER, evdev::KeyCode::KEY_ENTER),
        (codes::KEY_LEFTCTRL, evdev::KeyCode::KEY_LEFTCTRL),
        (codes::KEY_A, evdev::KeyCode::KEY_A),
        (codes::KEY_S, evdev::KeyCode::KEY_S),
        (codes::KEY_D, evdev::KeyCode::KEY_D),
        (codes::KEY_F, evdev::KeyCode::KEY_F),
        (codes::KEY_G, evdev::KeyCode::KEY_G),
        (codes::KEY_H, evdev::KeyCode::KEY_H),
        (codes::KEY_J, evdev::KeyCode::KEY_J),
        (codes::KEY_K, evdev::KeyCode::KEY_K),
        (codes::KEY_L, evdev::KeyCode::KEY_L),
        (codes::KEY_SEMICOLON, evdev::KeyCode::KEY_SEMICOLON),
        (codes::KEY_APOSTROPHE, evdev::KeyCode::KEY_APOSTROPHE),
        (codes::KEY_GRAVE, evdev::KeyCode::KEY_GRAVE),
        (codes::KEY_LEFTSHIFT, evdev::KeyCode::KEY_LEFTSHIFT),
        (codes::KEY_BACKSLASH, evdev::KeyCode::KEY_BACKSLASH),
        (codes::KEY_Z, evdev::KeyCode::KEY_Z),
        (codes::KEY_X, evdev::KeyCode::KEY_X),
        (codes::KEY_C, evdev::KeyCode::KEY_C),
        (codes::KEY_V, evdev::KeyCode::KEY_V),
        (codes::KEY_B, evdev::KeyCode::KEY_B),
        (codes::KEY_N, evdev::KeyCode::KEY_N),
        (codes::KEY_M, evdev::KeyCode::KEY_M),
        (codes::KEY_COMMA, evdev::KeyCode::KEY_COMMA),
        (codes::KEY_DOT, evdev::KeyCode::KEY_DOT),
        (codes::KEY_SLASH, evdev::KeyCode::KEY_SLASH),
        (codes::KEY_RIGHTSHIFT, evdev::KeyCode::KEY_RIGHTSHIFT),
        (codes::KEY_KPASTERISK, evdev::KeyCode::KEY_KPASTERISK),
        (codes::KEY_LEFTALT, evdev::KeyCode::KEY_LEFTALT),
        (codes::KEY_SPACE, evdev::KeyCode::KEY_SPACE),
        (codes::KEY_CAPSLOCK, evdev::KeyCode::KEY_CAPSLOCK),
        (codes::KEY_F1, evdev::KeyCode::KEY_F1),
        (codes::KEY_F2, evdev::KeyCode::KEY_F2),
        (codes::KEY_F3, evdev::KeyCode::KEY_F3),
        (codes::KEY_F4, evdev::KeyCode::KEY_F4),
        (codes::KEY_F5, evdev::KeyCode::KEY_F5),
        (codes::KEY_F6, evdev::KeyCode::KEY_F6),
        (codes::KEY_F7, evdev::KeyCode::KEY_F7),
        (codes::KEY_F8, evdev::KeyCode::KEY_F8),
        (codes::KEY_F9, evdev::KeyCode::KEY_F9),
        (codes::KEY_F10, evdev::KeyCode::KEY_F10),
        (codes::KEY_F11, evdev::KeyCode::KEY_F11),
        (codes::KEY_F12, evdev::KeyCode::KEY_F12),
        (codes::KEY_NUMLOCK, evdev::KeyCode::KEY_NUMLOCK),
        (codes::KEY_SCROLLLOCK, evdev::KeyCode::KEY_SCROLLLOCK),
        (codes::KEY_KP7, evdev::KeyCode::KEY_KP7),
        (codes::KEY_KP8, evdev::KeyCode::KEY_KP8),
        (codes::KEY_KP9, evdev::KeyCode::KEY_KP9),
        (codes::KEY_KPMINUS, evdev::KeyCode::KEY_KPMINUS),
        (codes::KEY_KP4, evdev::KeyCode::KEY_KP4),
        (codes::KEY_KP5, evdev::KeyCode::KEY_KP5),
        (codes::KEY_KP6, evdev::KeyCode::KEY_KP6),
        (codes::KEY_KPPLUS, evdev::KeyCode::KEY_KPPLUS),
        (codes::KEY_KP1, evdev::KeyCode::KEY_KP1),
        (codes::KEY_KP2, evdev::KeyCode::KEY_KP2),
        (codes::KEY_KP3, evdev::KeyCode::KEY_KP3),
        (codes::KEY_KP0, evdev::KeyCode::KEY_KP0),
        (codes::KEY_KPDOT, evdev::KeyCode::KEY_KPDOT),
        (codes::KEY_RO, evdev::KeyCode::KEY_RO),
        (codes::KEY_KPENTER, evdev::KeyCode::KEY_KPENTER),
        (codes::KEY_RIGHTCTRL, evdev::KeyCode::KEY_RIGHTCTRL),
        (codes::KEY_KPSLASH, evdev::KeyCode::KEY_KPSLASH),
        (codes::KEY_SYSRQ, evdev::KeyCode::KEY_SYSRQ),
        (codes::KEY_RIGHTALT, evdev::KeyCode::KEY_RIGHTALT),
        (codes::KEY_LINEFEED, evdev::KeyCode::KEY_LINEFEED),
        (codes::KEY_HOME, evdev::KeyCode::KEY_HOME),
        (codes::KEY_UP, evdev::KeyCode::KEY_UP),
        (codes::KEY_PAGEUP, evdev::KeyCode::KEY_PAGEUP),
        (codes::KEY_LEFT, evdev::KeyCode::KEY_LEFT),
        (codes::KEY_RIGHT, evdev::KeyCode::KEY_RIGHT),
        (codes::KEY_END, evdev::KeyCode::KEY_END),
        (codes::KEY_DOWN, evdev::KeyCode::KEY_DOWN),
        (codes::KEY_PAGEDOWN, evdev::KeyCode::KEY_PAGEDOWN),
        (codes::KEY_INSERT, evdev::KeyCode::KEY_INSERT),
        (codes::KEY_DELETE, evdev::KeyCode::KEY_DELETE),
        (codes::KEY_PAUSE, evdev::KeyCode::KEY_PAUSE),
        (codes::KEY_KPEQUAL, evdev::KeyCode::KEY_KPEQUAL),
        (codes::KEY_KPPLUSMINUS, evdev::KeyCode::KEY_KPPLUSMINUS),
        (codes::KEY_FIND, evdev::KeyCode::KEY_FIND),
        (codes::KEY_UNDO, evdev::KeyCode::KEY_UNDO),
        (codes::KEY_FRONT, evdev::KeyCode::KEY_FRONT),
        (codes::KEY_COPY, evdev::KeyCode::KEY_COPY),
        (codes::KEY_OPEN, evdev::KeyCode::KEY_OPEN),
        (codes::KEY_PASTE, evdev::KeyCode::KEY_PASTE),
        (codes::KEY_CUT, evdev::KeyCode::KEY_CUT),
        (codes::KEY_HELP, evdev::KeyCode::KEY_HELP),
        (codes::KEY_MENU, evdev::KeyCode::KEY_MENU),
        (codes::KEY_CALC, evdev::KeyCode::KEY_CALC),
        (codes::KEY_SETUP, evdev::KeyCode::KEY_SETUP),
        (codes::KEY_SLEEP, evdev::KeyCode::KEY_SLEEP),
        (codes::KEY_WAKEUP, evdev::KeyCode::KEY_WAKEUP),
        (codes::KEY_LEFTMETA, evdev::KeyCode::KEY_LEFTMETA),
        (codes::KEY_RIGHTMETA, evdev::KeyCode::KEY_RIGHTMETA),
        (codes::KEY_MAIL, evdev::KeyCode::KEY_MAIL),
        (codes::KEY_BOOKMARKS, evdev::KeyCode::KEY_BOOKMARKS),
        (codes::KEY_COMPUTER, evdev::KeyCode::KEY_COMPUTER),
        (codes::KEY_BACK, evdev::KeyCode::KEY_BACK),
        (codes::KEY_FORWARD, evdev::KeyCode::KEY_FORWARD),
        (codes::KEY_EJECTCD, evdev::KeyCode::KEY_EJECTCD),
        (codes::KEY_NEXTSONG, evdev::KeyCode::KEY_NEXTSONG),
        (codes::KEY_PLAYPAUSE, evdev::KeyCode::KEY_PLAYPAUSE),
        (codes::KEY_PREVIOUSSONG, evdev::KeyCode::KEY_PREVIOUSSONG),
        (codes::KEY_STOPCD, evdev::KeyCode::KEY_STOPCD),
        (codes::KEY_RECORD, evdev::KeyCode::KEY_RECORD),
        (codes::KEY_REWIND, evdev::KeyCode::KEY_REWIND),
        (codes::KEY_PHONE, evdev::KeyCode::KEY_PHONE),
        (codes::KEY_CONFIG, evdev::KeyCode::KEY_CONFIG),
        (codes::KEY_HOMEPAGE, evdev::KeyCode::KEY_HOMEPAGE),
        (codes::KEY_REFRESH, evdev::KeyCode::KEY_REFRESH),
        (codes::KEY_EXIT, evdev::KeyCode::KEY_EXIT),
        (codes::KEY_EDIT, evdev::KeyCode::KEY_EDIT),
        (codes::KEY_NEW, evdev::KeyCode::KEY_NEW),
        (codes::KEY_SAVE, evdev::KeyCode::KEY_SAVE),
        (codes::KEY_DOCUMENTS, evdev::KeyCode::KEY_DOCUMENTS),
        (codes::KEY_BRIGHTNESSDOWN, evdev::KeyCode::KEY_BRIGHTNESSDOWN),
        (codes::KEY_BRIGHTNESSUP, evdev::KeyCode::KEY_BRIGHTNESSUP),
        (codes::KEY_MEDIA, evdev::KeyCode::KEY_MEDIA),
        (codes::KEY_DASHBOARD, evdev::KeyCode::KEY_DASHBOARD),
        (codes::KEY_SCALE, evdev::KeyCode::KEY_SCALE),
        (codes::KEY_CYCLEWINDOWS, evdev::KeyCode::KEY_CYCLEWINDOWS),
        (codes::KEY_FN, evdev::KeyCode::KEY_FN),
        (codes::KEY_FN_ESC, evdev::KeyCode::KEY_FN_ESC),
        (codes::KEY_ZENKAKUHANKAKU, evdev::KeyCode::KEY_ZENKAKUHANKAKU),
        (codes::KEY_KATAKANA, evdev::KeyCode::KEY_KATAKANA),
        (codes::KEY_HIRAGANA, evdev::KeyCode::KEY_HIRAGANA),
        (codes::KEY_HENKAN, evdev::KeyCode::KEY_HENKAN),
        (codes::KEY_KATAKANAHIRAGANA, evdev::KeyCode::KEY_KATAKANAHIRAGANA),
        (codes::KEY_MUHENKAN, evdev::KeyCode::KEY_MUHENKAN),
        (codes::KEY_KPJPCOMMA, evdev::KeyCode::KEY_KPJPCOMMA),
        (codes::KEY_MUTE, evdev::KeyCode::KEY_MUTE),
        (codes::KEY_VOLUMEDOWN, evdev::KeyCode::KEY_VOLUMEDOWN),
        (codes::KEY_VOLUMEUP, evdev::KeyCode::KEY_VOLUMEUP),
        (codes::KEY_POWER, evdev::KeyCode::KEY_POWER),
        (codes::BTN_LEFT, evdev::KeyCode::BTN_LEFT),
        (codes::BTN_RIGHT, evdev::KeyCode::BTN_RIGHT),
        (codes::BTN_MIDDLE, evdev::KeyCode::BTN_MIDDLE),
    ];
    for (number, key) in pairs {
        assert_eq!(number, key.0, "{key:?}");
    }
}

#[test]
fn axis_and_event_numbers_are_those_of_evdev() {
    assert_eq!(codes::EV_SYN, evdev::EventType::SYNCHRONIZATION.0);
    assert_eq!(codes::EV_KEY, evdev::EventType::KEY.0);
    assert_eq!(codes::EV_REL, evdev::EventType::RELATIVE.0);
    assert_eq!(codes::SYN_REPORT, evdev::SynchronizationCode::SYN_REPORT.0);
    assert_eq!(codes::REL_X, evdev::RelativeAxisCode::REL_X.0);
    assert_eq!(codes::REL_Y, evdev::RelativeAxisCode::REL_Y.0);
    assert_eq!(codes::REL_WHEEL, evdev::RelativeAxisCode::REL_WHEEL.0);
    assert_eq!(codes::REL_HWHEEL, evdev::RelativeAxisCode::REL_HWHEEL.0);
}

#[test]
fn sets_reach_to_the_last_number() {
    let mut keys = evdev::AttributeSet::<evdev::KeyCode>::new();
    keys.insert(evdev::KeyCode(codes::KEY_CNT - 1));
    assert!(keys.contains(evdev::KeyCode(codes::KEY_CNT - 1)));
    assert!(!keys.contains(evdev::KeyCode(codes::KEY_CNT)));
    let mut axes = evdev::AttributeSet::<evdev::RelativeAxisCode>::new();
    axes.insert(evdev::RelativeAxisCode(codes::REL_CNT - 1));
    assert!(axes.contains(evdev::RelativeAxisCode(codes::REL_CNT - 1)));
    assert!(!axes.contains(evdev::RelativeAxisCode(codes::REL_CNT)));
}

#[test]
fn every_key_has_its_virtual_key_code() {
    let table = [
        (evdev::KeyCode::KEY_ESC, 0x1B),
        (evdev::KeyCode::KEY_1, 0x31),
        (evdev::KeyCode::KEY_2, 0x32),
        (evdev::KeyCode::KEY_3, 0x33),
        (evdev::KeyCode::KEY_4, 0x34),
        (evdev::KeyCode::KEY_5, 0x35),
        (evdev::KeyCode::KEY_6, 0x36),
        (evdev::KeyCode::KEY_7, 0x37),
        (evdev::KeyCode::KEY_8, 0x38),
        (evdev::KeyCode::KEY_9, 0x39),
        (evdev::KeyCode::KEY_0, 0x30),
        (evdev::KeyCode::KEY_MINUS, 0xBD),
        (evdev::KeyCode::KEY_EQUAL, 0xBB),
        (evdev::KeyCode::KEY_BACKSPACE, 0x08),
        (evdev::KeyCode::KEY_TAB, 0x09),
        (evdev::KeyCode::KEY_Q, 0x51),
        (evdev::KeyCode::KEY_W, 0x57),
        (evdev::KeyCode::KEY_E, 0x45),
        (evdev::KeyCode::KEY_R, 0x52),
        (evdev::KeyCode::KEY_T, 0x54),
        (evdev::KeyCode::KEY_Y, 0x59),
        (evdev::KeyCode::KEY_U, 0x55),
        (evdev::KeyCode::KEY_I, 0x49),
        (evdev::KeyCode::KEY_O, 0x4F),
        (evdev::KeyCode::KEY_P, 0x50),
        (evdev::KeyCode::KEY_LEFTBRACE, 0xDB),
        (evdev::KeyCode::KEY_RIGHTBRACE, 0xDD),
        (evdev::KeyCode::KEY_ENTER, 0x0D),
        (evdev::KeyCode::KEY_LEFTCTRL, 0xA2),
        (evdev::KeyCode::KEY_A, 0x41),
        (evdev::KeyCode::KEY_S, 0x53),
        (evdev::KeyCode::KEY_D, 0x44),
        (evdev::KeyCode::KEY_F, 0x46),
        (evdev::KeyCode::KEY_G, 0x47),
        (evdev::KeyCode::KEY_H, 0x48),
        (evdev::KeyCode::KEY_J, 0x4A),
        (evdev::KeyCode::KEY_K, 0x4B),
        (evdev::KeyCode::KEY_L, 0x4C),
        (evdev::KeyCode::KEY_SEMICOLON, 0xBA),
        (evdev::KeyCode::KEY_APOSTROPHE, 0xDE),
        (evdev::KeyCode::KEY_GRAVE, 0xC0),
        (evdev::KeyCode::KEY_LEFTSHIFT, 0xA0),
        (evdev::KeyCode::KEY_BACKSLASH, 0xDC),
        (evdev::KeyCode::KEY_Z, 0x5A),
        (evdev::KeyCode::KEY_X, 0x58),
        (evdev::KeyCode::KEY_C, 0x43),
        (evdev::KeyCode::KEY_V, 0x56),
        (evdev::KeyCode::KEY_B, 0x42),
        (evdev::KeyCode::KEY_N, 0x4E),
        (evdev::KeyCode::KEY_M, 0x4D),
        (evdev::KeyCode::KEY_COMMA, 0xBC),
        (evdev::KeyCode::KEY_DOT, 0xBE),
        (evdev::KeyCode::KEY_SLASH, 0xBF),
        (evdev::KeyCode::KEY_RIGHTSHIFT, 0xA1),
        (evdev::KeyCode::KEY_KPASTERISK, 0x6A),
        (evdev::KeyCode::KEY_LEFTALT, 0xA4),
        (evdev::KeyCode::KEY_SPACE, 0x20),
        (evdev::KeyCode::KEY_CAPSLOCK, 0x14),
        (evdev::KeyCode::KEY_F1, 0x70),
        (evdev::KeyCode::KEY_F2, 0x71),
        (evdev::KeyCode::KEY_F3, 0x72),
        (evdev::KeyCode::KEY_F4, 0x73),
        (evdev::KeyCode::KEY_F5, 0x74),
        (evdev::KeyCode::KEY_F6, 0x75),
        (evdev::KeyCode::KEY_F7, 0x76),
        (evdev::KeyCode::KEY_F8, 0x77),
        (evdev::KeyCode::KEY_F9, 0x78),
        (evdev::KeyCode::KEY_F10, 0x79),
        (evdev::KeyCode::KEY_F11, 0x7A),
        (evdev::KeyCode::KEY_F12, 0x7B),
        (evdev::KeyCode::KEY_NUMLOCK, 0x90),
        (evdev::KeyCode::KEY_SCROLLLOCK, 0x91),
        (evdev::KeyCode::KEY_KP7, 0x67),
        (evdev::KeyCode::KEY_KP8, 0x68),
        (evdev::KeyCode::KEY_KP9, 0x69),
        (evdev::KeyCode::KEY_KPMINUS, 0x6D),
        (evdev::KeyCode::KEY_KP4, 0x64),
        (evdev::KeyCode::KEY_KP5, 0x65),
        (evdev::KeyCode::KEY_KP6, 0x66),
        (evdev::KeyCode::KEY_KPPLUS, 0x6B),
        (evdev::KeyCode::KEY_KP1, 0x61),
        (evdev::KeyCode::KEY_KP2, 0x62),
        (evdev::KeyCode::KEY_KP3, 0x63),
        (evdev::KeyCode::KEY_KP0, 0x60),
        (evdev::KeyCode::KEY_KPDOT, 0x6E),
        (evdev::KeyCode::KEY_KPENTER, 0x6C),
        (evdev::KeyCode::KEY_RIGHTCTRL, 0xA3),
        (evdev::KeyCode::KEY_KPSLASH, 0x6F),
        (evdev::KeyCode::KEY_SYSRQ, 0x2C),
        (evdev::KeyCode::KEY_RIGHTALT, 0xA5),
        (evdev::KeyCode::KEY_HOME, 0x24),
        (evdev::KeyCode::KEY_UP, 0x26),
        (evdev::KeyCode::KEY_PAGEUP, 0x21),
        (evdev::KeyCode::KEY_LEFT, 0x25),
        (evdev::KeyCode::KEY_RIGHT, 0x27),
        (evdev::KeyCode::KEY_END, 0x23),
        (evdev::KeyCode::KEY_DOWN, 0x28),
        (evdev::KeyCode::KEY_PAGEDOWN, 0x22),
        (evdev::KeyCode::KEY_INSERT, 0x2D),
        (evdev::KeyCode::KEY_DELETE, 0x2E),
        (evdev::KeyCode::KEY_PAUSE, 0x13),
        (evdev::KeyCode::KEY_LEFTMETA, 0x5B),
        (evdev::KeyCode::KEY_RIGHTMETA, 0x5C),
        (evdev::KeyCode::KEY_MUTE, 0xAD),
        (evdev::KeyCode::KEY_VOLUMEDOWN, 0xAE),
        (evdev::KeyCode::KEY_VOLUMEUP, 0xAF),
        (evdev::KeyCode::KEY_POWER, 0x5E),
        (evdev::KeyCode::KEY_SLEEP, 0x5F),
        (evdev::KeyCode::KEY_WAKEUP, 0xE3),
        (evdev::KeyCode::KEY_MAIL, 0xB4),
        (evdev::KeyCode::KEY_BOOKMARKS, 0xAB),
        (evdev::KeyCode::KEY_COMPUTER, 0xB5),
        (evdev::KeyCode::KEY_BACK, 0xA6),
        (evdev::KeyCode::KEY_FORWARD, 0xA7),
        (evdev::KeyCode::KEY_EJECTCD, 0xE2),
        (evdev::KeyCode::KEY_NEXTSONG, 0xB0),
        (evdev::KeyCode::KEY_PLAYPAUSE, 0xB3),
        (evdev::KeyCode::KEY_PREVIOUSSONG, 0xB1),
        (evdev::KeyCode::KEY_STOPCD, 0xB2),
        (evdev::KeyCode::KEY_RECORD, 0xA2),
        (evdev::KeyCode::KEY_REWIND, 0xA4),
        (evdev::KeyCode::KEY_HOMEPAGE, 0xAC),
        (evdev::KeyCode::KEY_REFRESH, 0xA8),
    ];
    for (key, vk) in table {
        assert_eq!(evdev_key_to_windows_vk(key.0), Some(vk), "{key:?}");
    }
    let mapped = (0..=u16::MAX).filter(|code| evdev_key_to_windows_vk(*code).is_some());
    assert_eq!(mapped.count(), table.len());
}

#[test]
fn every_virtual_key_code_has_its_key() {
    let table = [
        (0x1B, evdev::KeyCode::KEY_ESC),
        (0x31, evdev::KeyCode::KEY_1),
        (0x32, evdev::KeyCode::KEY_2),
        (0x33, evdev::KeyCode::KEY_3),
        (0x34, evdev::KeyCode::KEY_4),
        (0x35, evdev::KeyCode::KEY_5),
        (0x36, evdev::KeyCode::KEY_6),
        (0x37, evdev::KeyCode::KEY_7),
        (0x38, evdev::KeyCode::KEY_8),
        (0x39, evdev::KeyCode::KEY_9),
        (0x30, evdev::KeyCode::KEY_0),
        (0xBD, evdev::KeyCode::KEY_MINUS),
        (0xBB, evdev::KeyCode::KEY_EQUAL),
        (0x08, evdev::KeyCode::KEY_BACKSPACE),
        (0x09, evdev::KeyCode::KEY_TAB),
        (0x51, evdev::KeyCode::KEY_Q),
        (0x57, evdev::KeyCode::KEY_W),
        (0x45, evdev::KeyCode::KEY_E),
        (0x52, evdev::KeyCode::KEY_R),
        (0x54, evdev::KeyCode::KEY_T),
        (0x59, evdev::KeyCode::KEY_Y),
        (0x55, evdev::KeyCode::KEY_U),
        (0x49, evdev::KeyCode::KEY_I),
        (0x4F, evdev::KeyCode::KEY_O),
        (0x50, evdev::KeyCode::KEY_P),
        (0xDB, evdev::KeyCode::KEY_LEFTBRACE),
        (0xDD, evdev::KeyCode::KEY_RIGHTBRACE),
        (0x0D, evdev::KeyCode::KEY_ENTER),
        (0xA2, evdev::KeyCode::KEY_LEFTCTRL),
        (0x41, evdev::KeyCode::KEY_A),
        (0x53, evdev::KeyCode::KEY_S),
        (0x44, evdev::KeyCode::KEY_D),
        (0x46, evdev::KeyCode::KEY_F),
        (0x47, evdev::KeyCode::KEY_G),
        (0x48, evdev::KeyCode::KEY_H),
        (0x4A, evdev::KeyCode::KEY_J),
        (0x4B, evdev::KeyCode::KEY_K),
        (0x4C, evdev::KeyCode::KEY_L),
        (0xBA, evdev::KeyCode::KEY_SEMICOLON),
        (0xDE, evdev::KeyCode::KEY_APOSTROPHE),
        (0xC0, evdev::KeyCode::KEY_GRAVE),
        (0xA0, evdev::KeyCode::KEY_LEFTSHIFT),
        (0xDC, evdev::KeyCode::KEY_BACKSLASH),
        (0x5A, evdev::KeyCode::KEY_Z),
        (0x58, evdev::KeyCode::KEY_X),
        (0x43, evdev::KeyCode::KEY_C),
        (0x56, evdev::KeyCode::KEY_V),
        (0x42, evdev::KeyCode::KEY_B),
        (0x4E, evdev::KeyCode::KEY_N),
        (0x4D, evdev::KeyCode::KEY_M),
        (0xBC, evdev::KeyCode::KEY_COMMA),
        (0xBE, evdev::KeyCode::KEY_DOT),
        (0xBF, evdev::KeyCode::KEY_SLASH),
        (0xA1, evdev::KeyCode::KEY_RIGHTSHIFT),
        (0x6A, evdev::KeyCode::KEY_KPASTERISK),
        (0xA4, evdev::KeyCode::KEY_LEFTALT),
        (0x20, evdev::KeyCode::KEY_SPACE),
        (0x14, evdev::KeyCode::KEY_CAPSLOCK),
        (0x70, evdev::KeyCode::KEY_F1),
        (0x71, evdev::KeyCode::KEY_F2),
        (0x72, evdev::KeyCode::KEY_F3),
        (0x73, evdev::KeyCode::KEY_F4),
        (0x74, evdev::KeyCode::KEY_F5),
        (0x75, evdev::KeyCode::KEY_F6),
        (0x76, evdev::KeyCode::KEY_F7),
        (0x77, evdev::KeyCode::KEY_F8),
        (0x78, evdev::KeyCode::KEY_F9),
        (0x79, evdev::KeyCode::KEY_F10),
        (0x7A, evdev::KeyCode::KEY_F11),
        (0x7B, evdev::KeyCode::KEY_F12),
        (0x90, evdev::KeyCode::KEY_NUMLOCK),
        (0x91, evdev::KeyCode::KEY_SCROLLLOCK),
        (0x67, evdev::KeyCode::KEY_KP7),
        (0x68, evdev::KeyCode::KEY_KP8),
        (0x69, evdev::KeyCode::KEY_KP9),
        (0x6D, evdev::KeyCode::KEY_KPMINUS),
        (0x64, evdev::KeyCode::KEY_KP4),
        (0x65, evdev::KeyCode::KEY_KP5),
        (0x66, evdev::KeyCode::KEY_KP6),
        (0x6B, evdev::KeyCode::KEY_KPPLUS),
        (0x61, evdev::KeyCode::KEY_KP1),
        (0x62, evdev::KeyCode::KEY_KP2),
        (0x63, evdev::KeyCode::KEY_KP3),
        (0x60, evdev::KeyCode::KEY_KP0),
        (0x6E, evdev::KeyCode::KEY_KPDOT),
        (0x6C, evdev::KeyCode::KEY_KPENTER),
        (0xA3, evdev::KeyCode::KEY_RIGHTCTRL),
        (0x6F, evdev::KeyCode::KEY_KPSLASH),
        (0x2C, evdev::KeyCode::KEY_SYSRQ),
        (0xA5, evdev::KeyCode::KEY_RIGHTALT),
        (0x24, evdev::KeyCode::KEY_HOME),
        (0x26, evdev::KeyCode::KEY_UP),
        (0x21, evdev::KeyCode::KEY_PAGEUP),
        (0x25, evdev::KeyCode::KEY_LEFT),
        (0x27, evdev::KeyCode::KEY_RIGHT),
        (0x23, evdev::KeyCode::KEY_END),
        (0x28, evdev::KeyCode::KEY_DOWN),
        (0x22, evdev::KeyCode::KEY_PAGEDOWN),
        (0x2D, evdev::KeyCode::KEY_INSERT),
        (0x2E, evdev::KeyCode::KEY_DELETE),
        (0x13, evdev::KeyCode::KEY_PAUSE),
        (0x5B, evdev::KeyCode::KEY_LEFTMETA),
        (0x5C, evdev::KeyCode::KEY_RIGHTMETA),
        (0xAD, evdev::KeyCode::KEY_MUTE),
        (0xAE, evdev::KeyCode::KEY_VOLUMEDOWN),
        (0xAF, evdev::KeyCode::KEY_VOLUMEUP),
        (0x5E, evdev::KeyCode::KEY_POWER),
        (0x5F, evdev::KeyCode::KEY_SLEEP),
        (0xE3, evdev::KeyCode::KEY_WAKEUP),
        (0xB4, evdev::KeyCode::KEY_MAIL),
        (0xAB, evdev::KeyCode::KEY_BOOKMARKS),
        (0xB5, evdev::KeyCode::KEY_COMPUTER),
        (0xA6, evdev::KeyCode::KEY_BACK),
        (0xA7, evdev::KeyCode::KEY_FORWARD),
        (0xB0, evdev::KeyCode::KEY_NEXTSONG),
        (0xB3, evdev::KeyCode::KEY_PLAYPAUSE),
        (0xB1, evdev::KeyCode::KEY_PREVIOUSSONG),
        (0xB2, evdev::KeyCode::KEY_STOPCD),
        (0xAC, evdev::KeyCode::KEY_HOMEPAGE),
        (0xA8, evdev::KeyCode::KEY_REFRESH),
    ];
    for (vk, key) in table {
        assert_eq!(windows_vk_to_evdev_key(vk), Some(key.0), "{key:?}");
    }
    let mapped = (0..=u16::MAX).filter(|vk| windows_vk_to_evdev_key(*vk).is_some());
    assert_eq!(mapped.count(), table.len());
}

#[test]
fn keys_without_a_code_are_not_translated() {
    assert_eq!(evdev_key_to_windows_vk(evdev::KeyCode::KEY_RO.0), None);
    assert_eq!(evdev_key_to_windows_vk(evdev::KeyCode::BTN_SIDE.0), None);
    assert_eq!(evdev_key_to_windows_vk(0), None);
    assert_eq!(windows_vk_to_evdev_key(0xE2), None);
    assert_eq!(windows_vk_to_evdev_key(0), None);
}

#[test]
fn virtual_key_codes_come_back() {
    for vk in 0..=u16::MAX {
        if let Some(code) = windows_vk_to_evdev_key(vk) {
            assert_eq!(evdev_key_to_windows_vk(code), Some(vk));
        }
    }
}

#[test]
fn keys_come_back_but_for_three() {
    let mut one_way = Vec::new();
    for code in 0..=u16::MAX {
        if let Some(vk) = evdev_key_to_windows_vk(code) {
            if windows_vk_to_evdev_key(vk) != Some(code) {
                one_way.push(code);
            }
        }
    }
    assert_eq!(one_way, vec![codes::KEY_EJECTCD, codes::KEY_RECORD, codes::KEY_REWIND]);
    let vk = evdev_key_to_windows_vk(codes::KEY_RECORD).unwrap();
    assert_eq!(windows_vk_to_evdev_key(vk), Some(codes::KEY_LEFTCTRL));
}

#[test]
fn virtual_keyboard_declares_each_key_once() {
    let supported = supported_keyboard_codes();
    assert_eq!(supported.len(), 160);
    for (i, code) in supported.iter().enumerate() {
        assert!(!supported[i + 1..].contains(code));
    }
    assert!(supported.contains(&codes::KEY_RO));
    assert!(supported.contains(&codes::KEY_CYCLEWINDOWS));
    assert!(!supported.contains(&codes::BTN_LEFT));
    assert!(!supported.contains(&evdev::KeyCode::KEY_MACRO.0));
}

#[test]
fn translated_keys_are_declared() {
    let supported = supported_keyboard_codes();
    for number in 0..=u16::MAX {
        if evdev_key_to_windows_vk(number).is_some() {
            assert!(supported.contains(&number));
        }
        if let Some(code) = windows_vk_to_evdev_key(number) {
            assert!(supported.contains(&code));
        }
    }
}
