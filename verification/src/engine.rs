//! The recognition engine: the decision core of the keyboard-hook callback.
//!
//! Every keyboard event first updates the modifier register, then goes to
//! the capture path (while the settings dialog has a slot open for
//! recording) or to the runtime matching path. The engine returns what the
//! hook must do — swallow or pass the event — together with the trigger and
//! the capture update it owes the embedding application.

use vstd::prelude::*;
use crate::chords::{
    HotkeyChord, HotkeySequence, spec_chord_to_hotkey, spec_push_chord_capture, chord_to_hotkey,
    push_chord_capture,
};
use crate::keys::{
    spec_is_keydown_msg, spec_is_keyup_msg, spec_is_mod_vk, is_keydown_msg, is_keyup_msg,
    mod_bit_for_vk,
};
use crate::mods::{ModifierRegister, spec_mods_after_press, spec_mods_after_release,
    spec_modvks_after_press, spec_modvks_after_release, spec_normalize_variants};
use crate::sequence::{
    SlotHotkeys, SlotOutcome, SlotProgress, SlotSequences, spec_try_match_any,
    try_match_any_sequence,
};
use crate::slots::HotkeySlot;

verus! {

/// The transient state of a capture session: which slot is being recorded,
/// the modifier chord pending between its key-down and its release, and the
/// time of the last captured input (for the staleness timeout).
#[derive(Clone, Copy, Debug, PartialEq, Eq, Structural)]
pub struct CaptureSession {
    pub active: bool,
    pub slot: Option<HotkeySlot>,
    pub pending_mods: u32,
    pub pending_mods_vks: u32,
    pub pending_mods_valid: bool,
    pub saw_non_mod: bool,
    pub last_input_tick_ms: u64,
}

/// The inactive capture session.
pub open spec fn spec_capture_session_inactive() -> CaptureSession {
    CaptureSession {
        active: false,
        slot: None,
        pending_mods: 0,
        pending_mods_vks: 0,
        pending_mods_valid: false,
        saw_non_mod: false,
        last_input_tick_ms: 0,
    }
}

impl CaptureSession {
    /// A session that is not capturing.
    pub fn new() -> (r: CaptureSession)
        ensures
            r == spec_capture_session_inactive(),
    {
        CaptureSession {
            active: false,
            slot: None,
            pending_mods: 0,
            pending_mods_vks: 0,
            pending_mods_valid: false,
            saw_non_mod: false,
            last_input_tick_ms: 0,
        }
    }
}

/// Runtime-mode mirror of the capture session's modifier-chord detection:
/// the pending modifier chord used to recognize a modifier-only tap outside
/// capture mode.
#[derive(Clone, Copy, Debug, PartialEq, Eq, Structural)]
pub struct RuntimeChordCapture {
    pub pending_mods: u32,
    pub pending_mods_vks: u32,
    pub pending_mods_valid: bool,
    pub saw_non_mod: bool,
}

/// The cleared runtime modifier-chord state.
pub open spec fn spec_runtime_capture_cleared() -> RuntimeChordCapture {
    RuntimeChordCapture {
        pending_mods: 0,
        pending_mods_vks: 0,
        pending_mods_valid: false,
        saw_non_mod: false,
    }
}

impl RuntimeChordCapture {
    /// No modifier chord pending.
    pub fn new() -> (r: RuntimeChordCapture)
        ensures
            r == spec_runtime_capture_cleared(),
    {
        RuntimeChordCapture {
            pending_mods: 0,
            pending_mods_vks: 0,
            pending_mods_valid: false,
            saw_non_mod: false,
        }
    }
}

impl Default for RuntimeChordCapture {
    /// No modifier chord pending.
    fn default() -> (r: RuntimeChordCapture)
        ensures
            r == spec_runtime_capture_cleared(),
    {
        RuntimeChordCapture::new()
    }
}

/// What the state machine decided for one event.
#[derive(Clone, Copy, Debug, PartialEq, Eq, Structural)]
pub enum HookDecision {
    Pass,
    Swallow,
}

impl HookDecision {
    /// Whether this decision asks the hook to consume the event.
    pub open spec fn spec_should_swallow(self) -> bool {
        self == HookDecision::Swallow
    }

    /// Whether this decision asks the hook to consume the event.
    pub fn should_swallow(self) -> (r: bool)
        ensures
            r == self.spec_should_swallow(),
    {
        matches!(self, HookDecision::Swallow)
    }
}

/// A freshly captured sequence a settings field must display.
#[derive(Clone, Copy, Debug, PartialEq, Eq, Structural)]
pub struct CaptureUpdate {
    pub slot: HotkeySlot,
    pub seq: HotkeySequence,
}

/// Everything the engine owes the embedder for one event besides the
/// mutated state: the raw decision, the trigger of a fully matched slot,
/// and the freshly captured sequence a settings field must display.
#[derive(Clone, Copy, Debug, PartialEq, Eq, Structural)]
pub struct EngineResponse {
    pub decision: HookDecision,
    pub fired: Option<HotkeySlot>,
    pub capture_update: Option<CaptureUpdate>,
}

/// A response that neither fires nor captures.
pub open spec fn spec_plain_response(decision: HookDecision) -> EngineResponse {
    EngineResponse { decision, fired: None, capture_update: None }
}

/// The engine's whole mutable state: the modifier register, both
/// modifier-chord detectors, the captured and the active sequence tables,
/// and the per-slot matching progress.
#[derive(Clone, Copy, Debug, PartialEq, Eq, Structural)]
pub struct EngineState {
    pub register: ModifierRegister,
    pub hotkey_capture: CaptureSession,
    pub runtime_chord_capture: RuntimeChordCapture,
    pub hotkey_sequence_values: SlotSequences,
    pub hotkey_values: SlotHotkeys,
    pub active_hotkey_sequences: SlotSequences,
    pub hotkey_sequence_progress: SlotProgress,
}

impl EngineState {
    /// A fresh engine: nothing held, nothing configured, nothing pending.
    pub fn new() -> (r: EngineState)
        ensures
            r.register.mods_down == 0,
            r.register.modvks_down == 0,
            r.hotkey_capture == spec_capture_session_inactive(),
            r.runtime_chord_capture == spec_runtime_capture_cleared(),
            r.active_hotkey_sequences.last_word is None,
            r.active_hotkey_sequences.pause is None,
            r.active_hotkey_sequences.selection is None,
            r.active_hotkey_sequences.switch_layout is None,
            r.hotkey_sequence_values == r.active_hotkey_sequences,
            r.hotkey_values.last_word is None,
            r.hotkey_values.pause is None,
            r.hotkey_values.selection is None,
            r.hotkey_values.switch_layout is None,
            r.hotkey_sequence_progress.last_word == crate::sequence::spec_idle_progress(),
            r.hotkey_sequence_progress.pause == crate::sequence::spec_idle_progress(),
            r.hotkey_sequence_progress.selection == crate::sequence::spec_idle_progress(),
            r.hotkey_sequence_progress.switch_layout == crate::sequence::spec_idle_progress(),
    {
        EngineState {
            register: ModifierRegister::new(),
            hotkey_capture: CaptureSession::new(),
            runtime_chord_capture: RuntimeChordCapture::new(),
            hotkey_sequence_values: SlotSequences::new(),
            hotkey_values: SlotHotkeys::new(),
            active_hotkey_sequences: SlotSequences::new(),
            hotkey_sequence_progress: SlotProgress::new(),
        }
    }
}

/// The capture path for a key-down. A modifier key-down records the pending
/// modifier chord; a non-modifier key-down pushes the built chord into the
/// slot's sequence under construction. Both are swallowed; with no slot
/// open the event passes untouched.
pub open spec fn spec_capture_keydown(
    s: EngineState,
    chord: HotkeyChord,
    is_mod: bool,
    now_ms: u64,
) -> (EngineState, EngineResponse) {
    match s.hotkey_capture.slot {
        None => (s, spec_plain_response(HookDecision::Pass)),
        Some(slot) => if is_mod {
            let cap = CaptureSession {
                pending_mods: chord.mods,
                pending_mods_vks: chord.mods_vks,
                pending_mods_valid: true,
                saw_non_mod: false,
                ..s.hotkey_capture
            };
            (EngineState { hotkey_capture: cap, ..s },
            spec_plain_response(HookDecision::Swallow))
        } else {
            let seq = spec_push_chord_capture(s.hotkey_sequence_values.spec_get(slot), chord,
                now_ms, s.hotkey_capture.last_input_tick_ms);
            let cap = CaptureSession {
                saw_non_mod: true,
                pending_mods_valid: false,
                last_input_tick_ms: now_ms,
                ..s.hotkey_capture
            };
            let s2 = EngineState {
                hotkey_capture: cap,
                hotkey_sequence_values: s.hotkey_sequence_values.spec_set(slot, Some(seq)),
                hotkey_values: s.hotkey_values.spec_set(slot, Some(spec_chord_to_hotkey(chord))),
                ..s
            };
            (s2, EngineResponse {
                decision: HookDecision::Swallow,
                fired: None,
                capture_update: Some(CaptureUpdate { slot, seq }),
            })
        },
    }
}

/// The capture path for a key-up. Non-modifier key-ups are swallowed
/// unconditionally while capture is active. A modifier key-up completes a
/// modifier-only chord exactly when a pending modifier chord is valid, no
/// non-modifier key intervened, and the register has returned to zero; the
/// synthesized `vk == None` chord is pushed like any other.
pub open spec fn spec_capture_keyup(s: EngineState, is_mod: bool, now_ms: u64) -> (EngineState,
    EngineResponse) {
    match s.hotkey_capture.slot {
        None => (s, spec_plain_response(HookDecision::Pass)),
        Some(slot) => if !is_mod {
            (s, spec_plain_response(HookDecision::Swallow))
        } else if !s.hotkey_capture.pending_mods_valid {
            (s, spec_plain_response(HookDecision::Swallow))
        } else if s.hotkey_capture.saw_non_mod {
            (s, spec_plain_response(HookDecision::Swallow))
        } else if s.register.mods_down != 0 {
            (s, spec_plain_response(HookDecision::Swallow))
        } else {
            let chord = HotkeyChord {
                mods: s.hotkey_capture.pending_mods,
                mods_vks: s.hotkey_capture.pending_mods_vks,
                vk: None,
            };
            let seq = spec_push_chord_capture(s.hotkey_sequence_values.spec_get(slot), chord,
                now_ms, s.hotkey_capture.last_input_tick_ms);
            let cap = CaptureSession {
                pending_mods_valid: false,
                pending_mods: 0,
                pending_mods_vks: 0,
                last_input_tick_ms: now_ms,
                ..s.hotkey_capture
            };
            let s2 = EngineState {
                hotkey_capture: cap,
                hotkey_sequence_values: s.hotkey_sequence_values.spec_set(slot, Some(seq)),
                hotkey_values: s.hotkey_values.spec_set(slot, Some(spec_chord_to_hotkey(chord))),
                ..s
            };
            (s2, EngineResponse {
                decision: HookDecision::Swallow,
                fired: None,
                capture_update: Some(CaptureUpdate { slot, seq }),
            })
        },
    }
}

/// The runtime path for a key-down. A modifier key-down only records the
/// pending modifier chord and passes. A non-modifier key-down invalidates
/// the pending chord and runs the priority scan with the built chord: the
/// event is swallowed exactly when some slot consumed or fired.
pub open spec fn spec_runtime_keydown(
    s: EngineState,
    chord: HotkeyChord,
    is_mod: bool,
    now_ms: u64,
) -> (EngineState, EngineResponse) {
    if is_mod {
        let rcc = RuntimeChordCapture {
            pending_mods: chord.mods,
            pending_mods_vks: chord.mods_vks,
            pending_mods_valid: true,
            saw_non_mod: false,
        };
        (EngineState { runtime_chord_capture: rcc, ..s },
        spec_plain_response(HookDecision::Pass))
    } else {
        let rcc = RuntimeChordCapture {
            saw_non_mod: true,
            pending_mods_valid: false,
            ..s.runtime_chord_capture
        };
        let scan = spec_try_match_any(s.active_hotkey_sequences, s.hotkey_sequence_progress,
            chord, now_ms);
        let s2 = EngineState {
            runtime_chord_capture: rcc,
            hotkey_sequence_progress: scan.0,
            ..s
        };
        match scan.1 {
            None => (s2, spec_plain_response(HookDecision::Pass)),
            Some((slot, out)) => (s2, EngineResponse {
                decision: HookDecision::Swallow,
                fired: if out == SlotOutcome::Fired {
                    Some(slot)
                } else {
                    None
                },
                capture_update: None,
            }),
        }
    }
}

/// The runtime path for a key-up. Only a modifier key-up that completes a
/// pending modifier-only tap (no non-modifier key intervened, register back
/// to zero) is matched, as a `vk == None` chord; everything else passes.
pub open spec fn spec_runtime_keyup(s: EngineState, is_mod: bool, now_ms: u64) -> (EngineState,
    EngineResponse) {
    if !is_mod {
        (s, spec_plain_response(HookDecision::Pass))
    } else if !s.runtime_chord_capture.pending_mods_valid {
        (s, spec_plain_response(HookDecision::Pass))
    } else if s.runtime_chord_capture.saw_non_mod {
        (s, spec_plain_response(HookDecision::Pass))
    } else if s.register.mods_down != 0 {
        (s, spec_plain_response(HookDecision::Pass))
    } else {
        let chord = HotkeyChord {
            mods: s.runtime_chord_capture.pending_mods,
            mods_vks: s.runtime_chord_capture.pending_mods_vks,
            vk: None,
        };
        let scan = spec_try_match_any(s.active_hotkey_sequences, s.hotkey_sequence_progress,
            chord, now_ms);
        let s2 = EngineState {
            runtime_chord_capture: spec_runtime_capture_cleared(),
            hotkey_sequence_progress: scan.0,
            ..s
        };
        match scan.1 {
            None => (s2, spec_plain_response(HookDecision::Pass)),
            Some((slot, out)) => (s2, EngineResponse {
                decision: HookDecision::Swallow,
                fired: if out == SlotOutcome::Fired {
                    Some(slot)
                } else {
                    None
                },
                capture_update: None,
            }),
        }
    }
}

/// A key-down event: the register records the press, the chord is built
/// from the updated register, and the capture or the runtime path runs.
pub open spec fn spec_handle_keydown(s: EngineState, vk: u32, now_ms: u64) -> (EngineState,
    EngineResponse) {
    let reg = ModifierRegister {
        mods_down: spec_mods_after_press(s.register.mods_down, vk),
        modvks_down: spec_modvks_after_press(s.register.modvks_down, vk),
    };
    let s1 = EngineState { register: reg, ..s };
    let chord = HotkeyChord {
        mods: reg.mods_down,
        mods_vks: spec_normalize_variants(reg.modvks_down),
        vk: Some(vk),
    };
    let is_mod = spec_is_mod_vk(vk);
    if s1.hotkey_capture.active {
        spec_capture_keydown(s1, chord, is_mod, now_ms)
    } else {
        spec_runtime_keydown(s1, chord, is_mod, now_ms)
    }
}

/// A key-up event: the register records the release, then the capture or
/// the runtime path runs.
pub open spec fn spec_handle_keyup(s: EngineState, vk: u32, now_ms: u64) -> (EngineState,
    EngineResponse) {
    let reg = ModifierRegister {
        mods_down: spec_mods_after_release(s.register.mods_down, vk),
        modvks_down: spec_modvks_after_release(s.register.modvks_down, vk),
    };
    let s1 = EngineState { register: reg, ..s };
    let is_mod = spec_is_mod_vk(vk);
    if s1.hotkey_capture.active {
        spec_capture_keyup(s1, is_mod, now_ms)
    } else {
        spec_runtime_keyup(s1, is_mod, now_ms)
    }
}

/// Handles the capture path of a key-down after the register update.
fn handle_keydown_capture(state: &mut EngineState, chord: HotkeyChord, is_mod: bool, now_ms: u64)
    -> (r: EngineResponse)
    ensures
        (*final(state), r) == spec_capture_keydown(*old(state), chord, is_mod, now_ms),
{
    let Some(slot) = state.hotkey_capture.slot else {
        return EngineResponse { decision: HookDecision::Pass, fired: None, capture_update: None };
    };

    if is_mod {
        state.hotkey_capture.pending_mods = chord.mods;
        state.hotkey_capture.pending_mods_vks = chord.mods_vks;
        state.hotkey_capture.pending_mods_valid = true;
        state.hotkey_capture.saw_non_mod = false;
        return EngineResponse {
            decision: HookDecision::Swallow,
            fired: None,
            capture_update: None,
        };
    }

    state.hotkey_capture.saw_non_mod = true;
    state.hotkey_capture.pending_mods_valid = false;

    let prev = state.hotkey_sequence_values.get(slot);
    let seq = push_chord_capture(prev, chord, now_ms, &mut state.hotkey_capture.last_input_tick_ms);

    state.hotkey_sequence_values.set(slot, Some(seq));
    state.hotkey_values.set(slot, Some(chord_to_hotkey(chord)));

    EngineResponse {
        decision: HookDecision::Swallow,
        fired: None,
        capture_update: Some(CaptureUpdate { slot, seq }),
    }
}

/// Handles the capture path of a key-up after the register update.
fn handle_keyup_capture(state: &mut EngineState, is_mod: bool, now_ms: u64) -> (r: EngineResponse)
    ensures
        (*final(state), r) == spec_capture_keyup(*old(state), is_mod, now_ms),
{
    let Some(slot) = state.hotkey_capture.slot else {
        return EngineResponse { decision: HookDecision::Pass, fired: None, capture_update: None };
    };

    let swallow = EngineResponse {
        decision: HookDecision::Swallow,
        fired: None,
        capture_update: None,
    };

    if !is_mod {
        return swallow;
    }
    if !state.hotkey_capture.pending_mods_valid {
        return swallow;
    }
    if state.hotkey_capture.saw_non_mod {
        return swallow;
    }
    if state.register.current_mods() != 0 {
        return swallow;
    }

    let chord = HotkeyChord {
        mods: state.hotkey_capture.pending_mods,
        mods_vks: state.hotkey_capture.pending_mods_vks,
        vk: None,
    };

    let prev = state.hotkey_sequence_values.get(slot);
    let seq = push_chord_capture(prev, chord, now_ms, &mut state.hotkey_capture.last_input_tick_ms);

    state.hotkey_capture.pending_mods_valid = false;
    state.hotkey_capture.pending_mods = 0;
    state.hotkey_capture.pending_mods_vks = 0;

    state.hotkey_sequence_values.set(slot, Some(seq));
    state.hotkey_values.set(slot, Some(chord_to_hotkey(chord)));

    EngineResponse {
        decision: HookDecision::Swallow,
        fired: None,
        capture_update: Some(CaptureUpdate { slot, seq }),
    }
}

/// Handles the runtime path of a key-down after the register update.
fn handle_keydown_runtime(state: &mut EngineState, chord: HotkeyChord, is_mod: bool, now_ms: u64)
    -> (r: EngineResponse)
    ensures
        (*final(state), r) == spec_runtime_keydown(*old(state), chord, is_mod, now_ms),
{
    if is_mod {
        state.runtime_chord_capture.pending_mods = chord.mods;
        state.runtime_chord_capture.pending_mods_vks = chord.mods_vks;
        state.runtime_chord_capture.pending_mods_valid = true;
        state.runtime_chord_capture.saw_non_mod = false;
        return EngineResponse { decision: HookDecision::Pass, fired: None, capture_update: None };
    }

    state.runtime_chord_capture.saw_non_mod = true;
    state.runtime_chord_capture.pending_mods_valid = false;

    let matched = try_match_any_sequence(&state.active_hotkey_sequences,
        &mut state.hotkey_sequence_progress, chord, now_ms);

    match matched {
        None => EngineResponse { decision: HookDecision::Pass, fired: None, capture_update: None },
        Some((slot, out)) => EngineResponse {
            decision: HookDecision::Swallow,
            fired: if matches!(out, SlotOutcome::Fired) {
                Some(slot)
            } else {
                None
            },
            capture_update: None,
        },
    }
}

/// Handles the runtime path of a key-up after the register update.
fn handle_keyup_runtime(state: &mut EngineState, is_mod: bool, now_ms: u64) -> (r: EngineResponse)
    ensures
        (*final(state), r) == spec_runtime_keyup(*old(state), is_mod, now_ms),
{
    let pass = EngineResponse { decision: HookDecision::Pass, fired: None, capture_update: None };

    if !is_mod {
        return pass;
    }
    if !state.runtime_chord_capture.pending_mods_valid {
        return pass;
    }
    if state.runtime_chord_capture.saw_non_mod {
        return pass;
    }
    if state.register.current_mods() != 0 {
        return pass;
    }

    let chord = HotkeyChord {
        mods: state.runtime_chord_capture.pending_mods,
        mods_vks: state.runtime_chord_capture.pending_mods_vks,
        vk: None,
    };

    state.runtime_chord_capture = RuntimeChordCapture::new();

    let matched = try_match_any_sequence(&state.active_hotkey_sequences,
        &mut state.hotkey_sequence_progress, chord, now_ms);

    match matched {
        None => pass,
        Some((slot, out)) => EngineResponse {
            decision: HookDecision::Swallow,
            fired: if matches!(out, SlotOutcome::Fired) {
                Some(slot)
            } else {
                None
            },
            capture_update: None,
        },
    }
}

/// Handles one key-down event: records the press in the register, builds
/// the observed chord, and runs the capture or the runtime path.
pub fn handle_keydown(state: &mut EngineState, vk: u32, is_mod: bool, now_ms: u64) -> (r:
    EngineResponse)
    requires
        is_mod == spec_is_mod_vk(vk),
    ensures
        (*final(state), r) == spec_handle_keydown(*old(state), vk, now_ms),
{
    state.register.press(vk);
    let chord = state.register.build_chord(vk);

    if state.hotkey_capture.active {
        handle_keydown_capture(state, chord, is_mod, now_ms)
    } else {
        handle_keydown_runtime(state, chord, is_mod, now_ms)
    }
}

/// Handles one key-up event: records the release in the register and runs
/// the capture or the runtime path.
pub fn handle_keyup(state: &mut EngineState, vk: u32, is_mod: bool, now_ms: u64) -> (r:
    EngineResponse)
    requires
        is_mod == spec_is_mod_vk(vk),
    ensures
        (*final(state), r) == spec_handle_keyup(*old(state), vk, now_ms),
{
    state.register.release(vk);

    if state.hotkey_capture.active {
        handle_keyup_capture(state, is_mod, now_ms)
    } else {
        handle_keyup_runtime(state, is_mod, now_ms)
    }
}

/// The final consume decision returned to the hook, with the response it
/// came from.
#[derive(Clone, Copy, Debug, PartialEq, Eq, Structural)]
pub struct EventOutcome {
    /// Whether the hook suppresses the event, after the modifier-key-up
    /// override.
    pub swallow: bool,
    pub response: EngineResponse,
}

/// What the whole engine does with one event. A message that is neither a
/// key-down nor a key-up leaves the state alone and passes. The suppression
/// the hook actually applies follows the state machine's decision, except
/// that a modifier key-up is never suppressed: those must always reach the
/// OS's own modifier bookkeeping, even when logically consumed.
pub open spec fn spec_process_event(s: EngineState, msg: u32, vk: u32, now_ms: u64)
    -> (EngineState, EventOutcome) {
    let is_mod = spec_is_mod_vk(vk);
    let (s2, resp) = if spec_is_keydown_msg(msg) {
        spec_handle_keydown(s, vk, now_ms)
    } else if spec_is_keyup_msg(msg) {
        spec_handle_keyup(s, vk, now_ms)
    } else {
        (s, spec_plain_response(HookDecision::Pass))
    };
    let swallow = resp.decision.spec_should_swallow() && !(is_mod && spec_is_keyup_msg(msg));
    (s2, EventOutcome { swallow, response: resp })
}

/// Processes one keyboard event and returns the hook's consume decision
/// together with the trigger and capture update owed to the embedder.
pub fn process_event(state: &mut EngineState, msg: u32, vk: u32, now_ms: u64) -> (r: EventOutcome)
    ensures
        (*final(state), r) == spec_process_event(*old(state), msg, vk, now_ms),
{
    let is_mod = mod_bit_for_vk(vk).is_some();

    let resp = if is_keydown_msg(msg) {
        handle_keydown(state, vk, is_mod, now_ms)
    } else if is_keyup_msg(msg) {
        handle_keyup(state, vk, is_mod, now_ms)
    } else {
        EngineResponse { decision: HookDecision::Pass, fired: None, capture_update: None }
    };

    let swallow = resp.decision.should_swallow() && !(is_mod && is_keyup_msg(msg));
    EventOutcome { swallow, response: resp }
}

/// A modifier key-up is never swallowed at the hook boundary, whatever the
/// state machine decided for it.
pub proof fn lemma_modifier_keyup_never_swallowed(s: EngineState, msg: u32, vk: u32, now_ms: u64)
    requires
        spec_is_keyup_msg(msg),
        spec_is_mod_vk(vk),
    ensures
        !spec_process_event(s, msg, vk, now_ms).1.swallow,
{
}

/// Whenever the runtime key-up path gets as far as building the
/// modifier-only chord — matched or not — it clears the pending modifier
/// state behind it.
pub proof fn lemma_runtime_tap_clears_pending(s: EngineState, is_mod: bool, now_ms: u64)
    requires
        is_mod,
        s.runtime_chord_capture.pending_mods_valid,
        !s.runtime_chord_capture.saw_non_mod,
        s.register.mods_down == 0,
    ensures
        spec_runtime_keyup(s, is_mod, now_ms).0.runtime_chord_capture
            == spec_runtime_capture_cleared(),
{
}

/// A key-up on cleared pending modifier state is inert: no chord is built,
/// nothing fires, nothing changes. Together with the clearing above, one
/// modifier tap yields at most one modifier-only chord until the next
/// modifier key-down.
pub proof fn lemma_cleared_pending_keyup_inert(s: EngineState, is_mod: bool, now_ms: u64)
    requires
        s.runtime_chord_capture == spec_runtime_capture_cleared(),
    ensures
        spec_runtime_keyup(s, is_mod, now_ms) == (s, spec_plain_response(HookDecision::Pass)),
{
}

} // verus!
