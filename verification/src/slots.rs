//! The four fixed hotkey purposes, the numeric trigger ids posted on a full
//! match, and the mapping back from a received trigger to an action.

use vstd::prelude::*;

verus! {

/// One of the four configurable hotkey purposes.
#[derive(Clone, Copy, Debug, PartialEq, Eq, Structural)]
pub enum HotkeySlot {
    LastWord,
    Pause,
    Selection,
    SwitchLayout,
}

/// The action behind a received trigger message.
#[derive(Clone, Copy, Debug, PartialEq, Eq, Structural)]
pub enum HotkeyAction {
    ConvertLastWord,
    PauseToggle,
    ConvertSelection,
    SwitchLayout,
}

/// Trigger id posted when the convert-last-word hotkey fires.
pub const HK_CONVERT_LAST_WORD_ID: i32 = 1;
/// Trigger id posted when the pause hotkey fires.
pub const HK_PAUSE_TOGGLE_ID: i32 = 2;
/// Trigger id posted when the convert-selection hotkey fires.
pub const HK_CONVERT_SELECTION_ID: i32 = 3;
/// Trigger id posted when the switch-layout hotkey fires.
pub const HK_SWITCH_LAYOUT_ID: i32 = 4;

/// The trigger id owned by each slot.
pub open spec fn spec_hotkey_id_for_slot(slot: HotkeySlot) -> i32 {
    match slot {
        HotkeySlot::LastWord => HK_CONVERT_LAST_WORD_ID,
        HotkeySlot::Pause => HK_PAUSE_TOGGLE_ID,
        HotkeySlot::Selection => HK_CONVERT_SELECTION_ID,
        HotkeySlot::SwitchLayout => HK_SWITCH_LAYOUT_ID,
    }
}

/// Maps a slot to the trigger id posted when its sequence fires.
pub fn hotkey_id_for_slot(slot: HotkeySlot) -> (r: i32)
    ensures
        r == spec_hotkey_id_for_slot(slot),
{
    match slot {
        HotkeySlot::LastWord => HK_CONVERT_LAST_WORD_ID,
        HotkeySlot::Pause => HK_PAUSE_TOGGLE_ID,
        HotkeySlot::Selection => HK_CONVERT_SELECTION_ID,
        HotkeySlot::SwitchLayout => HK_SWITCH_LAYOUT_ID,
    }
}

/// The action behind a trigger id, if the id is one the engine posts.
pub open spec fn spec_action_from_id(id: i32) -> Option<HotkeyAction> {
    if id == HK_CONVERT_LAST_WORD_ID {
        Some(HotkeyAction::ConvertLastWord)
    } else if id == HK_PAUSE_TOGGLE_ID {
        Some(HotkeyAction::PauseToggle)
    } else if id == HK_CONVERT_SELECTION_ID {
        Some(HotkeyAction::ConvertSelection)
    } else if id == HK_SWITCH_LAYOUT_ID {
        Some(HotkeyAction::SwitchLayout)
    } else {
        None
    }
}

/// Maps a trigger id back to its action; an unknown id maps to `None`.
pub fn action_from_id(id: i32) -> (r: Option<HotkeyAction>)
    ensures
        r == spec_action_from_id(id),
{
    if id == HK_CONVERT_LAST_WORD_ID {
        Some(HotkeyAction::ConvertLastWord)
    } else if id == HK_PAUSE_TOGGLE_ID {
        Some(HotkeyAction::PauseToggle)
    } else if id == HK_CONVERT_SELECTION_ID {
        Some(HotkeyAction::ConvertSelection)
    } else if id == HK_SWITCH_LAYOUT_ID {
        Some(HotkeyAction::SwitchLayout)
    } else {
        None
    }
}

/// Recovers a trigger id from the raw message word it was posted as. Ids are
/// small positive numbers, so any id the engine posts survives the round
/// trip.
pub fn hotkey_id_from_wparam(wparam: usize) -> (r: i32)
    ensures
        wparam <= 0x7fff_ffff ==> r == wparam as i32,
{
    #[verifier::truncate]
    (wparam as i32)
}

/// Maps a raw trigger message word to its action; an unknown word maps to
/// `None`.
pub fn hotkey_action_from_wparam(wparam: usize) -> (r: Option<HotkeyAction>)
    ensures
        wparam <= 0x7fff_ffff ==> r == spec_action_from_id(wparam as i32),
{
    action_from_id(hotkey_id_from_wparam(wparam))
}

/// The display name of each slot, as the settings dialog labels it.
pub open spec fn spec_slot_display_name(slot: HotkeySlot) -> Seq<char> {
    match slot {
        HotkeySlot::LastWord => "Convert last word"@,
        HotkeySlot::Pause => "Pause"@,
        HotkeySlot::Selection => "Convert selection"@,
        HotkeySlot::SwitchLayout => "Switch layout"@,
    }
}

/// The human-readable name of a slot.
pub fn slot_display_name(slot: HotkeySlot) -> (r: String)
    ensures
        r@ == spec_slot_display_name(slot),
{
    match slot {
        HotkeySlot::LastWord => String::from_str("Convert last word"),
        HotkeySlot::Pause => String::from_str("Pause"),
        HotkeySlot::Selection => String::from_str("Convert selection"),
        HotkeySlot::SwitchLayout => String::from_str("Switch layout"),
    }
}

} // verus!
