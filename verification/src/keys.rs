//! Virtual-key and window-message classification: which virtual keys are
//! modifiers, which bit each one owns in the coarse and in the precise
//! modifier sets, and which message codes are key-down or key-up events.

use vstd::prelude::*;
use crate::chords::{
    MODVK_LALT, MODVK_LCTRL, MODVK_LSHIFT, MODVK_LWIN, MODVK_RALT, MODVK_RCTRL, MODVK_RSHIFT,
    MODVK_RWIN,
};

verus! {

/// Coarse modifier bit for either Alt key.
pub const MOD_ALT: u32 = 1;
/// Coarse modifier bit for either Ctrl key.
pub const MOD_CONTROL: u32 = 2;
/// Coarse modifier bit for either Shift key.
pub const MOD_SHIFT: u32 = 4;
/// Coarse modifier bit for either Win key.
pub const MOD_WIN: u32 = 8;

/// Virtual key of the left Shift key.
pub const VK_LSHIFT: u32 = 0xA0;
/// Virtual key of the right Shift key.
pub const VK_RSHIFT: u32 = 0xA1;
/// Virtual key of the left Ctrl key.
pub const VK_LCONTROL: u32 = 0xA2;
/// Virtual key of the right Ctrl key.
pub const VK_RCONTROL: u32 = 0xA3;
/// Virtual key of the left Alt key.
pub const VK_LMENU: u32 = 0xA4;
/// Virtual key of the right Alt key.
pub const VK_RMENU: u32 = 0xA5;
/// Virtual key of the left Win key.
pub const VK_LWIN: u32 = 0x5B;
/// Virtual key of the right Win key.
pub const VK_RWIN: u32 = 0x5C;

/// Message code of an ordinary key-down event.
pub const WM_KEYDOWN: u32 = 0x0100;
/// Message code of an ordinary key-up event.
pub const WM_KEYUP: u32 = 0x0101;
/// Message code of a system key-down event.
pub const WM_SYSKEYDOWN: u32 = 0x0104;
/// Message code of a system key-up event.
pub const WM_SYSKEYUP: u32 = 0x0105;

/// The coarse modifier bit owned by a virtual key, if it is a modifier key.
pub open spec fn spec_mod_bit_for_vk(vk: u32) -> Option<u32> {
    if vk == VK_LCONTROL || vk == VK_RCONTROL {
        Some(MOD_CONTROL)
    } else if vk == VK_LSHIFT || vk == VK_RSHIFT {
        Some(MOD_SHIFT)
    } else if vk == VK_LMENU || vk == VK_RMENU {
        Some(MOD_ALT)
    } else if vk == VK_LWIN || vk == VK_RWIN {
        Some(MOD_WIN)
    } else {
        None
    }
}

/// Maps a modifier virtual key to its coarse modifier bit; any other key
/// maps to `None`.
pub fn mod_bit_for_vk(vk: u32) -> (r: Option<u32>)
    ensures
        r == spec_mod_bit_for_vk(vk),
{
    match vk {
        0xA2 | 0xA3 => Some(MOD_CONTROL),
        0xA0 | 0xA1 => Some(MOD_SHIFT),
        0xA4 | 0xA5 => Some(MOD_ALT),
        0x5B | 0x5C => Some(MOD_WIN),
        _ => None,
    }
}

/// The precise left/right variant bit owned by a virtual key, if it is a
/// modifier key.
pub open spec fn spec_mod_vk_bit_for_vk(vk: u32) -> Option<u32> {
    if vk == VK_LCONTROL {
        Some(MODVK_LCTRL)
    } else if vk == VK_RCONTROL {
        Some(MODVK_RCTRL)
    } else if vk == VK_LSHIFT {
        Some(MODVK_LSHIFT)
    } else if vk == VK_RSHIFT {
        Some(MODVK_RSHIFT)
    } else if vk == VK_LMENU {
        Some(MODVK_LALT)
    } else if vk == VK_RMENU {
        Some(MODVK_RALT)
    } else if vk == VK_LWIN {
        Some(MODVK_LWIN)
    } else if vk == VK_RWIN {
        Some(MODVK_RWIN)
    } else {
        None
    }
}

/// Maps a modifier virtual key to its left/right variant bit; any other key
/// maps to `None`.
pub fn mod_vk_bit_for_vk(vk: u32) -> (r: Option<u32>)
    ensures
        r == spec_mod_vk_bit_for_vk(vk),
{
    match vk {
        0xA2 => Some(MODVK_LCTRL),
        0xA3 => Some(MODVK_RCTRL),
        0xA0 => Some(MODVK_LSHIFT),
        0xA1 => Some(MODVK_RSHIFT),
        0xA4 => Some(MODVK_LALT),
        0xA5 => Some(MODVK_RALT),
        0x5B => Some(MODVK_LWIN),
        0x5C => Some(MODVK_RWIN),
        _ => None,
    }
}

/// Whether a virtual key is a modifier key.
pub open spec fn spec_is_mod_vk(vk: u32) -> bool {
    spec_mod_bit_for_vk(vk) is Some
}

/// Whether a message code is a key-down event, system variant included.
pub open spec fn spec_is_keydown_msg(msg: u32) -> bool {
    msg == WM_KEYDOWN || msg == WM_SYSKEYDOWN
}

/// Classifies a message code as key-down, system variant included.
pub fn is_keydown_msg(msg: u32) -> (r: bool)
    ensures
        r == spec_is_keydown_msg(msg),
{
    msg == WM_KEYDOWN || msg == WM_SYSKEYDOWN
}

/// Whether a message code is a key-up event, system variant included.
pub open spec fn spec_is_keyup_msg(msg: u32) -> bool {
    msg == WM_KEYUP || msg == WM_SYSKEYUP
}

/// Classifies a message code as key-up, system variant included.
pub fn is_keyup_msg(msg: u32) -> (r: bool)
    ensures
        r == spec_is_keyup_msg(msg),
{
    msg == WM_KEYUP || msg == WM_SYSKEYUP
}

} // verus!
