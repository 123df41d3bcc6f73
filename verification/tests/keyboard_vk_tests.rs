use rust_switcher::keys;

#[test]
fn keydown_keyup_msg_classification() {
    assert!(keys::is_keydown_msg(keys::WM_KEYDOWN));
    assert!(keys::is_keydown_msg(keys::WM_SYSKEYDOWN));
    assert!(!keys::is_keydown_msg(keys::WM_KEYUP));
    assert!(!keys::is_keydown_msg(keys::WM_SYSKEYUP));

    assert!(keys::is_keyup_msg(keys::WM_KEYUP));
    assert!(keys::is_keyup_msg(keys::WM_SYSKEYUP));
    assert!(!keys::is_keyup_msg(keys::WM_KEYDOWN));
    assert!(!keys::is_keyup_msg(keys::WM_SYSKEYDOWN));
}

#[test]
fn mod_bit_for_vk_known_values() {
    assert!(keys::mod_bit_for_vk(0xA2).is_some()); // LCtrl
    assert!(keys::mod_bit_for_vk(0xA3).is_some()); // RCtrl
    assert!(keys::mod_bit_for_vk(0xA0).is_some()); // LShift
    assert!(keys::mod_bit_for_vk(0xA1).is_some()); // RShift
    assert!(keys::mod_bit_for_vk(0xA4).is_some()); // LAlt
    assert!(keys::mod_bit_for_vk(0xA5).is_some()); // RAlt
    assert!(keys::mod_bit_for_vk(0x5B).is_some()); // LWin
    assert!(keys::mod_bit_for_vk(0x5C).is_some()); // RWin
    assert!(keys::mod_bit_for_vk(0x30).is_none()); // 0
}

#[test]
fn mod_vk_bit_for_vk_known_values() {
    assert!(keys::mod_vk_bit_for_vk(0xA2).is_some());
    assert!(keys::mod_vk_bit_for_vk(0xA3).is_some());
    assert!(keys::mod_vk_bit_for_vk(0xA0).is_some());
    assert!(keys::mod_vk_bit_for_vk(0xA1).is_some());
    assert!(keys::mod_vk_bit_for_vk(0xA4).is_some());
    assert!(keys::mod_vk_bit_for_vk(0xA5).is_some());
    assert!(keys::mod_vk_bit_for_vk(0x5B).is_some());
    assert!(keys::mod_vk_bit_for_vk(0x5C).is_some());
    assert!(keys::mod_vk_bit_for_vk(0x30).is_none());
}

#[test]
fn mod_bits_map_to_expected_masks() {
    assert_eq!(keys::mod_bit_for_vk(0xA2), Some(keys::MOD_CONTROL));
    assert_eq!(keys::mod_bit_for_vk(0xA1), Some(keys::MOD_SHIFT));
    assert_eq!(keys::mod_bit_for_vk(0xA4), Some(keys::MOD_ALT));
    assert_eq!(keys::mod_bit_for_vk(0x5C), Some(keys::MOD_WIN));

    assert_eq!(keys::mod_vk_bit_for_vk(0xA2), Some(1));
    assert_eq!(keys::mod_vk_bit_for_vk(0xA3), Some(2));
    assert_eq!(keys::mod_vk_bit_for_vk(0xA0), Some(4));
    assert_eq!(keys::mod_vk_bit_for_vk(0xA1), Some(8));
    assert_eq!(keys::mod_vk_bit_for_vk(0xA4), Some(16));
    assert_eq!(keys::mod_vk_bit_for_vk(0xA5), Some(32));
    assert_eq!(keys::mod_vk_bit_for_vk(0x5B), Some(64));
    assert_eq!(keys::mod_vk_bit_for_vk(0x5C), Some(128));
}
