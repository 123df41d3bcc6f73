//! The modifier register: a process-wide record of which modifier keys are
//! currently held, in a coarse set and in a precise left/right variant set,
//! and the chord builder that reads it.

use vstd::prelude::*;
use crate::chords::{HotkeyChord, MODVK_LCTRL, MODVK_RALT};
use crate::keys::{spec_mod_bit_for_vk, spec_mod_vk_bit_for_vk, mod_bit_for_vk, mod_vk_bit_for_vk};

verus! {

/// Which modifier keys are held right now. All updates come from the single
/// hook-callback thread; the register is ordinary owned state here, and the
/// process-global lifetime is the embedder's concern.
#[derive(Clone, Copy, Debug, PartialEq, Eq, Structural)]
pub struct ModifierRegister {
    /// Coarse modifier bitmask: any Ctrl, any Shift, any Alt, any Win.
    pub mods_down: u32,
    /// Precise variant bitmask: one bit per left/right modifier key.
    pub modvks_down: u32,
}

/// The coarse set after a key-down of `vk`: its modifier bit is added, and a
/// non-modifier key changes nothing.
pub open spec fn spec_mods_after_press(mods: u32, vk: u32) -> u32 {
    match spec_mod_bit_for_vk(vk) {
        Some(bit) => mods | bit,
        None => mods,
    }
}

/// The variant set after a key-down of `vk`.
pub open spec fn spec_modvks_after_press(modvks: u32, vk: u32) -> u32 {
    match spec_mod_vk_bit_for_vk(vk) {
        Some(bit) => modvks | bit,
        None => modvks,
    }
}

/// The coarse set after a key-up of `vk`: its modifier bit is removed, and a
/// non-modifier key changes nothing.
pub open spec fn spec_mods_after_release(mods: u32, vk: u32) -> u32 {
    match spec_mod_bit_for_vk(vk) {
        Some(bit) => mods & !bit,
        None => mods,
    }
}

/// The variant set after a key-up of `vk`.
pub open spec fn spec_modvks_after_release(modvks: u32, vk: u32) -> u32 {
    match spec_mod_vk_bit_for_vk(vk) {
        Some(bit) => modvks & !bit,
        None => modvks,
    }
}

/// The hardware-quirk correction applied to an observed variant set: the
/// AltGr physical key arrives as a synthetic RightAlt+LeftCtrl pair, so when
/// the RightAlt bit is set the LeftCtrl bit is dropped.
pub open spec fn spec_normalize_variants(modvks: u32) -> u32 {
    if modvks & MODVK_RALT != 0 {
        modvks & !MODVK_LCTRL
    } else {
        modvks
    }
}

/// A normalized variant set that contains RightAlt never contains LeftCtrl:
/// an AltGr event cannot be mistaken for a genuine Ctrl+Alt chord by
/// variant-precise matching.
pub proof fn lemma_altgr_clears_left_ctrl(modvks: u32)
    requires
        modvks & MODVK_RALT != 0,
    ensures
        spec_normalize_variants(modvks) & MODVK_LCTRL == 0,
{
    assert((modvks & !1u32) & 1u32 == 0) by (bit_vector);
}

impl ModifierRegister {
    /// An empty register: no modifier held.
    pub fn new() -> (r: ModifierRegister)
        ensures
            r.mods_down == 0,
            r.modvks_down == 0,
    {
        ModifierRegister { mods_down: 0, modvks_down: 0 }
    }

    /// Records a key-down: sets the key's bits in both sets; a non-modifier
    /// key is a no-op.
    pub fn press(&mut self, vk: u32)
        ensures
            final(self).mods_down == spec_mods_after_press(old(self).mods_down, vk),
            final(self).modvks_down == spec_modvks_after_press(old(self).modvks_down, vk),
    {
        if let Some(bit) = mod_bit_for_vk(vk) {
            self.mods_down = self.mods_down | bit;
        }
        if let Some(bit) = mod_vk_bit_for_vk(vk) {
            self.modvks_down = self.modvks_down | bit;
        }
    }

    /// Records a key-up: clears the key's bits in both sets; a non-modifier
    /// key is a no-op.
    pub fn release(&mut self, vk: u32)
        ensures
            final(self).mods_down == spec_mods_after_release(old(self).mods_down, vk),
            final(self).modvks_down == spec_modvks_after_release(old(self).modvks_down, vk),
    {
        if let Some(bit) = mod_bit_for_vk(vk) {
            self.mods_down = self.mods_down & !bit;
        }
        if let Some(bit) = mod_vk_bit_for_vk(vk) {
            self.modvks_down = self.modvks_down & !bit;
        }
    }

    /// The coarse modifier set currently held.
    pub fn current_mods(&self) -> (r: u32)
        ensures
            r == self.mods_down,
    {
        self.mods_down
    }

    /// The precise variant set currently held.
    pub fn current_variants(&self) -> (r: u32)
        ensures
            r == self.modvks_down,
    {
        self.modvks_down
    }

    /// Builds the chord observed at a key-down of `vk`: the current modifier
    /// sets with the AltGr correction applied to the variants, and `vk` as
    /// the chord's key.
    pub fn build_chord(&self, vk: u32) -> (r: HotkeyChord)
        ensures
            r.mods == self.mods_down,
            r.mods_vks == spec_normalize_variants(self.modvks_down),
            r.vk == Some(vk),
    {
        let mods = self.mods_down;
        let mut mods_vks = self.modvks_down;

        // AltGr often arrives as RightAlt + LeftCtrl
        if mods_vks & MODVK_RALT != 0 {
            mods_vks = mods_vks & !MODVK_LCTRL;
        }

        HotkeyChord { mods, mods_vks, vk: Some(vk) }
    }
}

} // verus!
