//! The application configuration: the four slot-to-sequence mappings with
//! their defaults, and the validator that rejects conflicting duplicates.

use vstd::prelude::*;
use crate::chords::{Hotkey, HotkeyChord, HotkeySequence};
use crate::slots::{HotkeySlot, spec_slot_display_name, slot_display_name};

verus! {

/// The persisted application settings. Each `*_sequence` field is one
/// slot's configured hotkey; `None` disables that feature.
#[derive(Clone, Copy, Debug, PartialEq, Eq, Structural)]
pub struct Config {
    pub start_on_startup: bool,
    pub show_tray_icon: bool,
    pub delay_ms: u32,
    pub hotkey_convert_last_word: Option<Hotkey>,
    pub hotkey_convert_selection: Option<Hotkey>,
    pub hotkey_switch_layout: Option<Hotkey>,
    pub hotkey_pause: Option<Hotkey>,
    pub paused: bool,
    pub hotkey_convert_last_word_sequence: Option<HotkeySequence>,
    pub hotkey_pause_sequence: Option<HotkeySequence>,
    pub hotkey_convert_selection_sequence: Option<HotkeySequence>,
    pub hotkey_switch_layout_sequence: Option<HotkeySequence>,
}

/// An older on-disk layout of the settings, kept so existing files load.
#[derive(Clone, Copy, Debug, PartialEq, Eq, Structural)]
pub struct RawConfig {
    pub delay_ms: u32,
    pub start_minimized: bool,
    pub theme_dark: bool,
    pub hotkey_convert_last_word: Option<Hotkey>,
    pub hotkey_convert_selection: Option<Hotkey>,
    pub hotkey_switch_layout: Option<Hotkey>,
    pub hotkey_pause: Option<Hotkey>,
    pub hotkey_convert_last_word_sequence: Option<HotkeySequence>,
    pub hotkey_pause_sequence: Option<HotkeySequence>,
    pub hotkey_convert_selection_sequence: Option<HotkeySequence>,
    pub hotkey_switch_layout_sequence: Option<HotkeySequence>,
}

impl Default for RawConfig {
    /// Everything off and nothing configured.
    fn default() -> (r: RawConfig)
        ensures
            r.delay_ms == 0,
            !r.start_minimized,
            !r.theme_dark,
            r.hotkey_convert_last_word is None,
            r.hotkey_convert_selection is None,
            r.hotkey_switch_layout is None,
            r.hotkey_pause is None,
            r.hotkey_convert_last_word_sequence is None,
            r.hotkey_pause_sequence is None,
            r.hotkey_convert_selection_sequence is None,
            r.hotkey_switch_layout_sequence is None,
    {
        RawConfig {
            delay_ms: 0,
            start_minimized: false,
            theme_dark: false,
            hotkey_convert_last_word: None,
            hotkey_convert_selection: None,
            hotkey_switch_layout: None,
            hotkey_pause: None,
            hotkey_convert_last_word_sequence: None,
            hotkey_pause_sequence: None,
            hotkey_convert_selection_sequence: None,
            hotkey_switch_layout_sequence: None,
        }
    }
}

/// The configuration shipped with a fresh installation: the conversion
/// slots answer a double left-Shift tap, pause a tap with both Shift keys
/// held, and layout switching the CapsLock key.
pub open spec fn spec_default_config() -> Config {
    Config {
        start_on_startup: false,
        show_tray_icon: false,
        delay_ms: 100,
        hotkey_switch_layout: None,
        hotkey_pause: None,
        hotkey_convert_last_word: None,
        hotkey_convert_selection: None,
        paused: false,
        hotkey_convert_last_word_sequence: Some(
            HotkeySequence {
                first: HotkeyChord { mods: 4, mods_vks: 4, vk: None },
                second: Some(HotkeyChord { mods: 4, mods_vks: 4, vk: None }),
                max_gap_ms: 1000,
            },
        ),
        hotkey_pause_sequence: Some(
            HotkeySequence {
                first: HotkeyChord { mods: 4, mods_vks: 12, vk: None },
                second: None,
                max_gap_ms: 1000,
            },
        ),
        hotkey_convert_selection_sequence: Some(
            HotkeySequence {
                first: HotkeyChord { mods: 4, mods_vks: 4, vk: None },
                second: Some(HotkeyChord { mods: 4, mods_vks: 4, vk: None }),
                max_gap_ms: 1000,
            },
        ),
        hotkey_switch_layout_sequence: Some(
            HotkeySequence {
                first: HotkeyChord { mods: 0, mods_vks: 0, vk: Some(20) },
                second: None,
                max_gap_ms: 1000,
            },
        ),
    }
}

impl Default for Config {
    /// The configuration shipped with a fresh installation.
    fn default() -> (r: Config)
        ensures
            r == spec_default_config(),
    {
        Config {
            start_on_startup: false,
            show_tray_icon: false,
            delay_ms: 100,
            hotkey_switch_layout: None,
            hotkey_pause: None,
            hotkey_convert_last_word: None,
            hotkey_convert_selection: None,
            paused: false,
            hotkey_convert_last_word_sequence: Some(
                HotkeySequence {
                    first: HotkeyChord { mods: 4, mods_vks: 4, vk: None },
                    second: Some(HotkeyChord { mods: 4, mods_vks: 4, vk: None }),
                    max_gap_ms: 1000,
                },
            ),
            hotkey_pause_sequence: Some(
                HotkeySequence {
                    first: HotkeyChord { mods: 4, mods_vks: 12, vk: None },
                    second: None,
                    max_gap_ms: 1000,
                },
            ),
            hotkey_convert_selection_sequence: Some(
                HotkeySequence {
                    first: HotkeyChord { mods: 4, mods_vks: 4, vk: None },
                    second: Some(HotkeyChord { mods: 4, mods_vks: 4, vk: None }),
                    max_gap_ms: 1000,
                },
            ),
            hotkey_switch_layout_sequence: Some(
                HotkeySequence {
                    first: HotkeyChord { mods: 0, mods_vks: 0, vk: Some(20) },
                    second: None,
                    max_gap_ms: 1000,
                },
            ),
        }
    }
}

/// Whether two slots are configured with the same sequence. Only two
/// present sequences conflict; a disabled slot conflicts with nothing.
pub open spec fn spec_seqs_collide(a: Option<HotkeySequence>, b: Option<HotkeySequence>) -> bool {
    a is Some && b is Some && a->0 == b->0
}

/// The first forbidden duplicate among the slots, in the fixed check
/// order. The last-word and selection slots may intentionally share a
/// sequence; every other pair of slots must differ.
pub open spec fn spec_first_conflict(c: Config) -> Option<(HotkeySlot, HotkeySlot)> {
    if spec_seqs_collide(c.hotkey_convert_last_word_sequence, c.hotkey_pause_sequence) {
        Some((HotkeySlot::LastWord, HotkeySlot::Pause))
    } else if spec_seqs_collide(c.hotkey_convert_last_word_sequence,
        c.hotkey_switch_layout_sequence) {
        Some((HotkeySlot::LastWord, HotkeySlot::SwitchLayout))
    } else if spec_seqs_collide(c.hotkey_pause_sequence, c.hotkey_convert_selection_sequence) {
        Some((HotkeySlot::Pause, HotkeySlot::Selection))
    } else if spec_seqs_collide(c.hotkey_pause_sequence, c.hotkey_switch_layout_sequence) {
        Some((HotkeySlot::Pause, HotkeySlot::SwitchLayout))
    } else if spec_seqs_collide(c.hotkey_convert_selection_sequence,
        c.hotkey_switch_layout_sequence) {
        Some((HotkeySlot::Selection, HotkeySlot::SwitchLayout))
    } else {
        None
    }
}

/// The message reported for a forbidden duplicate between two slots.
pub open spec fn spec_duplicate_message(a: HotkeySlot, b: HotkeySlot) -> Seq<char> {
    "Duplicate hotkey sequences: "@ + spec_slot_display_name(a) + " and "@
        + spec_slot_display_name(b)
}

impl Config {
    /// Checks the four configured sequences for forbidden duplicates.
    ///
    /// Returns `Ok` exactly when no two slots that must differ share a
    /// sequence; the last-word and selection slots are allowed to share
    /// one. On a conflict the error names the first offending pair.
    pub fn validate_hotkey_sequences(&self) -> (r: Result<(), String>)
        ensures
            r is Ok <==> spec_first_conflict(*self) is None,
            r matches Err(e) ==> (spec_first_conflict(*self) matches Some(pair) && e@
                == spec_duplicate_message(pair.0, pair.1)),
    {
        let conflict: Option<(HotkeySlot, HotkeySlot)> = if seqs_collide(
            self.hotkey_convert_last_word_sequence,
            self.hotkey_pause_sequence,
        ) {
            Some((HotkeySlot::LastWord, HotkeySlot::Pause))
        } else if seqs_collide(self.hotkey_convert_last_word_sequence,
            self.hotkey_switch_layout_sequence) {
            Some((HotkeySlot::LastWord, HotkeySlot::SwitchLayout))
        } else if seqs_collide(self.hotkey_pause_sequence, self.hotkey_convert_selection_sequence) {
            Some((HotkeySlot::Pause, HotkeySlot::Selection))
        } else if seqs_collide(self.hotkey_pause_sequence, self.hotkey_switch_layout_sequence) {
            Some((HotkeySlot::Pause, HotkeySlot::SwitchLayout))
        } else if seqs_collide(self.hotkey_convert_selection_sequence,
            self.hotkey_switch_layout_sequence) {
            Some((HotkeySlot::Selection, HotkeySlot::SwitchLayout))
        } else {
            None
        };

        match conflict {
            None => Ok(()),
            Some((a, b)) => {
                let mut msg = String::from_str("Duplicate hotkey sequences: ");
                let name_a = slot_display_name(a);
                let name_b = slot_display_name(b);
                msg.append(name_a.as_str());
                msg.append(" and ");
                msg.append(name_b.as_str());
                Err(msg)
            },
        }
    }
}

/// Decides whether two optional sequences are both present and equal.
fn seqs_collide(a: Option<HotkeySequence>, b: Option<HotkeySequence>) -> (r: bool)
    ensures
        r == spec_seqs_collide(a, b),
{
    match (a, b) {
        (Some(x), Some(y)) => x == y,
        _ => false,
    }
}

} // verus!
