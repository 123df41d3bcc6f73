use rust_switcher::slots::{
    HK_CONVERT_LAST_WORD_ID, HK_CONVERT_SELECTION_ID, HK_PAUSE_TOGGLE_ID, HK_SWITCH_LAYOUT_ID,
    HotkeyAction, HotkeySlot, action_from_id, hotkey_action_from_wparam, hotkey_id_for_slot,
    hotkey_id_from_wparam, slot_display_name,
};

#[test]
fn hotkey_id_from_wparam_roundtrip() {
    assert_eq!(
        hotkey_id_from_wparam(HK_CONVERT_LAST_WORD_ID as usize),
        HK_CONVERT_LAST_WORD_ID
    );
    assert_eq!(
        hotkey_id_from_wparam(HK_PAUSE_TOGGLE_ID as usize),
        HK_PAUSE_TOGGLE_ID
    );
    assert_eq!(
        hotkey_id_from_wparam(HK_CONVERT_SELECTION_ID as usize),
        HK_CONVERT_SELECTION_ID
    );
    assert_eq!(
        hotkey_id_from_wparam(HK_SWITCH_LAYOUT_ID as usize),
        HK_SWITCH_LAYOUT_ID
    );
}

#[test]
fn action_from_id_known_values() {
    assert_eq!(
        action_from_id(HK_CONVERT_LAST_WORD_ID),
        Some(HotkeyAction::ConvertLastWord)
    );
    assert_eq!(
        action_from_id(HK_PAUSE_TOGGLE_ID),
        Some(HotkeyAction::PauseToggle)
    );
    assert_eq!(
        action_from_id(HK_CONVERT_SELECTION_ID),
        Some(HotkeyAction::ConvertSelection)
    );
    assert_eq!(
        action_from_id(HK_SWITCH_LAYOUT_ID),
        Some(HotkeyAction::SwitchLayout)
    );
}

#[test]
fn action_from_id_unknown_is_none() {
    assert_eq!(action_from_id(0), None);
    assert_eq!(action_from_id(19999), None);
    assert_eq!(action_from_id(29999), None);
}

#[test]
fn hotkey_action_from_wparam_known_values() {
    assert_eq!(
        hotkey_action_from_wparam(HK_CONVERT_LAST_WORD_ID as usize),
        Some(HotkeyAction::ConvertLastWord)
    );
    assert_eq!(
        hotkey_action_from_wparam(HK_PAUSE_TOGGLE_ID as usize),
        Some(HotkeyAction::PauseToggle)
    );
    assert_eq!(
        hotkey_action_from_wparam(HK_CONVERT_SELECTION_ID as usize),
        Some(HotkeyAction::ConvertSelection)
    );
    assert_eq!(
        hotkey_action_from_wparam(HK_SWITCH_LAYOUT_ID as usize),
        Some(HotkeyAction::SwitchLayout)
    );
}

#[test]
fn hotkey_action_from_wparam_unknown_is_none() {
    assert_eq!(hotkey_action_from_wparam(0), None);
    assert_eq!(hotkey_action_from_wparam(19999), None);
    assert_eq!(hotkey_action_from_wparam(29999), None);
}

#[test]
fn hotkey_id_for_slot_matches_action_mapping() {
    assert_eq!(hotkey_id_for_slot(HotkeySlot::LastWord), HK_CONVERT_LAST_WORD_ID);
    assert_eq!(hotkey_id_for_slot(HotkeySlot::Pause), HK_PAUSE_TOGGLE_ID);
    assert_eq!(hotkey_id_for_slot(HotkeySlot::Selection), HK_CONVERT_SELECTION_ID);
    assert_eq!(hotkey_id_for_slot(HotkeySlot::SwitchLayout), HK_SWITCH_LAYOUT_ID);
}

#[test]
fn slot_display_names() {
    assert_eq!(slot_display_name(HotkeySlot::LastWord), "Convert last word");
    assert_eq!(slot_display_name(HotkeySlot::Pause), "Pause");
    assert_eq!(slot_display_name(HotkeySlot::Selection), "Convert selection");
    assert_eq!(slot_display_name(HotkeySlot::SwitchLayout), "Switch layout");
}
