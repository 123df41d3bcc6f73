use rust_switcher::chords::{Hotkey, HotkeyChord, HotkeySequence};
use rust_switcher::format::{format_hotkey, format_hotkey_sequence};
use rust_switcher::keys::{MOD_ALT, MOD_CONTROL, MOD_SHIFT, MOD_WIN};

#[test]
fn format_hotkey_none() {
    assert_eq!(format_hotkey(None), "None");
}

#[test]
fn format_hotkey_letter_fast_path() {
    let hk = Hotkey {
        mods: MOD_CONTROL,
        vk: u32::from(b'A'),
    };
    let s = format_hotkey(Some(hk));
    assert!(s.contains("Ctrl"));
    assert!(s.contains("A"));
}

#[test]
fn format_hotkey_multiple_mods_fast_path() {
    let hk = Hotkey {
        mods: MOD_CONTROL | MOD_SHIFT | MOD_ALT | MOD_WIN,
        vk: u32::from(b'9'),
    };
    let s = format_hotkey(Some(hk));
    assert!(s.contains("Ctrl"));
    assert!(s.contains("Shift"));
    assert!(s.contains("Alt"));
    assert!(s.contains("Win"));
    assert!(s.contains("9"));
}

#[test]
fn format_hotkey_exact_rendering() {
    let hk = Hotkey {
        mods: MOD_CONTROL | MOD_SHIFT | MOD_ALT | MOD_WIN,
        vk: u32::from(b'9'),
    };
    assert_eq!(format_hotkey(Some(hk)), "Ctrl+Shift+Alt+Win+9");

    let modifier_only = Hotkey { mods: MOD_SHIFT, vk: 0 };
    assert_eq!(format_hotkey(Some(modifier_only)), "Shift");

    let empty = Hotkey { mods: 0, vk: 0 };
    assert_eq!(format_hotkey(Some(empty)), "None");

    let unknown_key = Hotkey { mods: MOD_CONTROL, vk: 20 };
    assert_eq!(format_hotkey(Some(unknown_key)), "Ctrl+VK20");
}

#[test]
fn format_sequence_rendering() {
    assert_eq!(format_hotkey_sequence(None), "None");

    let one = HotkeySequence {
        first: HotkeyChord {
            mods: MOD_CONTROL,
            mods_vks: 0,
            vk: Some(u32::from(b'K')),
        },
        second: None,
        max_gap_ms: 800,
    };
    assert_eq!(format_hotkey_sequence(Some(one)), "Ctrl+K");

    let two = HotkeySequence {
        first: HotkeyChord {
            mods: MOD_SHIFT,
            mods_vks: 0,
            vk: None,
        },
        second: Some(HotkeyChord {
            mods: MOD_SHIFT,
            mods_vks: 0,
            vk: None,
        }),
        max_gap_ms: 1000,
    };
    assert_eq!(format_hotkey_sequence(Some(two)), "Shift, Shift");
}
