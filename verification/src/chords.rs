//! Chords and chord sequences: the data a hotkey is made of, and the
//! predicate that decides whether an observed chord satisfies a template.

use vstd::prelude::*;

verus! {

/// Variant bit for the left Ctrl key.
pub const MODVK_LCTRL: u32 = 1;
/// Variant bit for the right Ctrl key.
pub const MODVK_RCTRL: u32 = 2;
/// Variant bit for the left Shift key.
pub const MODVK_LSHIFT: u32 = 4;
/// Variant bit for the right Shift key.
pub const MODVK_RSHIFT: u32 = 8;
/// Variant bit for the left Alt key.
pub const MODVK_LALT: u32 = 16;
/// Variant bit for the right Alt key.
pub const MODVK_RALT: u32 = 32;
/// Variant bit for the left Win key.
pub const MODVK_LWIN: u32 = 64;
/// Variant bit for the right Win key.
pub const MODVK_RWIN: u32 = 128;

/// A legacy single-key hotkey: a coarse modifier set plus one virtual key.
#[derive(Clone, Copy, Debug, PartialEq, Eq, Structural)]
pub struct Hotkey {
    pub vk: u32,
    pub mods: u32,
}

/// One instant's combination of held modifiers plus at most one
/// non-modifier key.
///
/// `mods` is the coarse modifier bitmask (any Ctrl, any Shift, ...);
/// `mods_vks` carries the precise left/right variant bits, where `0` is a
/// wildcard that matches regardless of side. `vk == None` denotes a
/// modifier-only chord.
#[derive(Clone, Copy, Debug, PartialEq, Eq, Structural)]
pub struct HotkeyChord {
    pub mods: u32,
    pub mods_vks: u32,
    pub vk: Option<u32>,
}

/// A configured hotkey: one chord, or two chords that must occur with a gap
/// of at most `max_gap_ms` milliseconds between them.
#[derive(Clone, Copy, Debug, PartialEq, Eq, Structural)]
pub struct HotkeySequence {
    pub first: HotkeyChord,
    pub second: Option<HotkeyChord>,
    pub max_gap_ms: u32,
}

/// What it means for an observed chord to satisfy a template chord: the
/// coarse modifier sets and the keys must agree, and the variant sets must
/// agree unless the template's variant set is the wildcard `0`.
pub open spec fn spec_chord_matches(template: HotkeyChord, input: HotkeyChord) -> bool {
    &&& template.mods == input.mods
    &&& template.vk == input.vk
    &&& (template.mods_vks == 0 || template.mods_vks == input.mods_vks)
}

/// Decides whether `input` satisfies the `template` chord.
pub fn chord_matches(template: HotkeyChord, input: HotkeyChord) -> (r: bool)
    ensures
        r == spec_chord_matches(template, input),
{
    if template.mods != input.mods {
        return false;
    }
    if template.vk != input.vk {
        return false;
    }
    if template.mods_vks == 0 {
        return true;
    }
    template.mods_vks == input.mods_vks
}

/// A template with wildcard variants matches independently of the observed
/// variant bits: any two observed chords that agree on `mods` and `vk` are
/// matched or rejected alike.
pub proof fn lemma_wildcard_variants_ignored(a: HotkeyChord, b1: HotkeyChord, b2: HotkeyChord)
    requires
        a.mods_vks == 0,
        b1.mods == b2.mods,
        b1.vk == b2.vk,
    ensures
        spec_chord_matches(a, b1) == spec_chord_matches(a, b2),
{
}

/// With nonzero variant sets on both sides, a match requires the variant
/// sets to be equal, in addition to the coarse modifiers and the key.
pub proof fn lemma_nonzero_variants_compared(a: HotkeyChord, b: HotkeyChord)
    requires
        a.mods_vks != 0,
        b.mods_vks != 0,
    ensures
        spec_chord_matches(a, b) == (a.mods == b.mods && a.vk == b.vk && a.mods_vks
            == b.mods_vks),
{
}

/// Gap given to a sequence started by the runtime modifier-chord path.
pub const DEFAULT_GAP_MS: u32 = 800;
/// Gap given to a sequence started while capturing in the settings dialog.
pub const CAPTURE_DEFAULT_GAP_MS: u32 = 1000;
/// A capture session older than this discards its partial sequence.
pub const CAPTURE_RESET_AFTER_MS: u64 = 2000;

/// The sliding two-chord push rule: with no existing sequence the chord
/// starts a fresh one-chord sequence with gap `default_gap_ms`; with a
/// one-chord sequence it becomes the second chord; with a full sequence the
/// old second slides into first and the chord becomes second, so only the
/// most recent two chords are retained.
pub open spec fn spec_push_chord(
    existing: Option<HotkeySequence>,
    chord: HotkeyChord,
    default_gap_ms: u32,
) -> HotkeySequence {
    match existing {
        None => HotkeySequence { first: chord, second: None, max_gap_ms: default_gap_ms },
        Some(s) => match s.second {
            None => HotkeySequence { second: Some(chord), ..s },
            Some(prev_second) => HotkeySequence { first: prev_second, second: Some(chord), ..s },
        },
    }
}

/// Appends a chord to a sequence under construction by the sliding
/// two-chord push rule, with the runtime default gap for a fresh sequence.
pub fn push_chord(existing: Option<HotkeySequence>, chord: HotkeyChord) -> (r: HotkeySequence)
    ensures
        r == spec_push_chord(existing, chord, DEFAULT_GAP_MS),
{
    match existing {
        None => HotkeySequence { first: chord, second: None, max_gap_ms: DEFAULT_GAP_MS },
        Some(mut s) => match s.second {
            None => {
                s.second = Some(chord);
                s
            },
            Some(prev_second) => {
                s.first = prev_second;
                s.second = Some(chord);
                s
            },
        },
    }
}

/// The sequence the capture push rule leaves for the slot: a stale session
/// (`last_input_tick_ms` set and further than the staleness timeout behind
/// `now_ms`) discards the existing sequence first, then the sliding push
/// rule applies with the capture default gap.
pub open spec fn spec_push_chord_capture(
    existing: Option<HotkeySequence>,
    chord: HotkeyChord,
    now_ms: u64,
    last_input_tick_ms: u64,
) -> HotkeySequence {
    let kept = if last_input_tick_ms == 0 {
        existing
    } else if spec_saturating_sub(now_ms, last_input_tick_ms) > CAPTURE_RESET_AFTER_MS {
        None
    } else {
        existing
    };
    spec_push_chord(kept, chord, CAPTURE_DEFAULT_GAP_MS)
}

/// `a - b`, floored at zero.
pub open spec fn spec_saturating_sub(a: u64, b: u64) -> u64 {
    if a >= b {
        (a - b) as u64
    } else {
        0
    }
}

/// Appends a chord to the sequence being captured for a slot, discarding a
/// stale partial sequence first, and records `now_ms` as the session's last
/// input time.
pub fn push_chord_capture(
    existing: Option<HotkeySequence>,
    chord: HotkeyChord,
    now_ms: u64,
    last_input_tick_ms: &mut u64,
) -> (r: HotkeySequence)
    ensures
        r == spec_push_chord_capture(existing, chord, now_ms, *old(last_input_tick_ms)),
        *final(last_input_tick_ms) == now_ms,
{
    let existing = match (*last_input_tick_ms, existing) {
        (0, s) => s,
        (prev, _) if now_ms.saturating_sub(prev) > CAPTURE_RESET_AFTER_MS => None,
        (_, s) => s,
    };

    let seq = match existing {
        None => HotkeySequence { first: chord, second: None, max_gap_ms: CAPTURE_DEFAULT_GAP_MS },
        Some(mut s) => match s.second {
            None => {
                s.second = Some(chord);
                s
            },
            Some(prev_second) => {
                s.first = prev_second;
                s.second = Some(chord);
                s
            },
        },
    };

    *last_input_tick_ms = now_ms;
    seq
}

/// A stale capture session keeps nothing: when input was seen before and
/// the staleness timeout has since elapsed, the pushed chord starts a fresh
/// one-chord sequence and the old partial sequence is discarded.
pub proof fn lemma_stale_capture_discards(
    existing: Option<HotkeySequence>,
    chord: HotkeyChord,
    now_ms: u64,
    last_input_tick_ms: u64,
)
    requires
        last_input_tick_ms != 0,
        spec_saturating_sub(now_ms, last_input_tick_ms) > CAPTURE_RESET_AFTER_MS,
    ensures
        spec_push_chord_capture(existing, chord, now_ms, last_input_tick_ms) == (HotkeySequence {
            first: chord,
            second: None,
            max_gap_ms: CAPTURE_DEFAULT_GAP_MS,
        }),
{
}

/// The legacy single-key form of a chord: the same coarse modifiers, and a
/// missing key becomes virtual key `0`.
pub open spec fn spec_chord_to_hotkey(ch: HotkeyChord) -> Hotkey {
    Hotkey {
        vk: match ch.vk {
            Some(vk) => vk,
            None => 0,
        },
        mods: ch.mods,
    }
}

/// Projects a chord onto the legacy single-key form: a missing key becomes
/// virtual key `0`.
pub fn chord_to_hotkey(ch: HotkeyChord) -> (r: Hotkey)
    ensures
        r == spec_chord_to_hotkey(ch),
{
    Hotkey { vk: if let Some(vk) = ch.vk { vk } else { 0 }, mods: ch.mods }
}

} // verus!
