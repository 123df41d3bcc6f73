//! The per-slot matching state machine: how one key chord advances a slot's
//! configured sequence, and the fixed-priority scan over all four slots.

use vstd::prelude::*;
use crate::chords::{Hotkey, HotkeyChord, HotkeySequence, spec_chord_matches, chord_matches};
use crate::slots::HotkeySlot;

verus! {

/// How far a two-chord match has advanced during normal use. `Idle` is
/// represented by `waiting_second == false` (with the tick cleared to zero);
/// `WaitingSecond` by `waiting_second == true` with the tick of the moment
/// the first chord was satisfied.
#[derive(Clone, Copy, Debug, PartialEq, Eq, Structural)]
pub struct SequenceProgress {
    pub waiting_second: bool,
    pub first_tick_ms: u64,
}

/// What one slot reported for one incoming chord.
///
/// `Consumed` means the chord advanced (or refreshed) a two-chord sequence
/// and must not leak through to the foreground application; `Fired` means
/// the sequence matched completely and its trigger is owed.
#[derive(Clone, Copy, Debug, PartialEq, Eq, Structural)]
pub enum SlotOutcome {
    NoMatch,
    Consumed,
    Fired,
}

/// The idle progress state.
pub open spec fn spec_idle_progress() -> SequenceProgress {
    SequenceProgress { waiting_second: false, first_tick_ms: 0 }
}

/// `now - prev`, floored at zero, as the executable saturating subtraction
/// computes it.
pub open spec fn spec_elapsed_ms(now_ms: u64, prev_ms: u64) -> u64 {
    if now_ms >= prev_ms {
        (now_ms - prev_ms) as u64
    } else {
        0
    }
}

/// The gap allowed between the two chords of a sequence.
pub open spec fn spec_effective_gap_ms(seq: HotkeySequence) -> u64 {
    seq.max_gap_ms as u64
}

/// The gap allowed between the two chords of `seq`; the slot does not
/// change it.
pub fn effective_gap_ms(_slot: HotkeySlot, seq: HotkeySequence) -> (r: u64)
    ensures
        r == spec_effective_gap_ms(seq),
{
    seq.max_gap_ms as u64
}

/// One step of the matching state machine for a slot whose configured
/// sequence is `seq_opt`: the successor progress state and the outcome.
///
/// With no sequence configured nothing matches. A one-chord sequence fires
/// on a chord that satisfies it and leaves the progress alone. For a
/// two-chord sequence, a stale wait (older than the allowed gap) first
/// falls back to idle and the incoming chord is then evaluated fresh; while
/// waiting, the second chord fires, the first chord again refreshes the
/// timer and is consumed, and anything else resets to idle unmatched; from
/// idle, the first chord starts the wait and is consumed.
pub open spec fn spec_sequence_step(
    seq_opt: Option<HotkeySequence>,
    prog: SequenceProgress,
    chord: HotkeyChord,
    now_ms: u64,
) -> (SequenceProgress, SlotOutcome) {
    match seq_opt {
        None => (prog, SlotOutcome::NoMatch),
        Some(seq) => match seq.second {
            None => if spec_chord_matches(seq.first, chord) {
                (prog, SlotOutcome::Fired)
            } else {
                (prog, SlotOutcome::NoMatch)
            },
            Some(second) => {
                let expired = prog.waiting_second && spec_elapsed_ms(now_ms, prog.first_tick_ms)
                    > spec_effective_gap_ms(seq);
                let p = if expired {
                    spec_idle_progress()
                } else {
                    prog
                };
                if p.waiting_second {
                    if spec_chord_matches(second, chord) {
                        (spec_idle_progress(), SlotOutcome::Fired)
                    } else if spec_chord_matches(seq.first, chord) {
                        (SequenceProgress { waiting_second: true, first_tick_ms: now_ms },
                        SlotOutcome::Consumed)
                    } else {
                        (spec_idle_progress(), SlotOutcome::NoMatch)
                    }
                } else {
                    if spec_chord_matches(seq.first, chord) {
                        (SequenceProgress { waiting_second: true, first_tick_ms: now_ms },
                        SlotOutcome::Consumed)
                    } else {
                        (p, SlotOutcome::NoMatch)
                    }
                }
            },
        },
    }
}

/// Advances one slot's matching state by one incoming chord.
///
/// The progress afterwards and the returned outcome are exactly one step of
/// the matching state machine.
pub fn try_match_sequence(
    prog: &mut SequenceProgress,
    seq_opt: Option<HotkeySequence>,
    chord: HotkeyChord,
    now_ms: u64,
) -> (r: SlotOutcome)
    ensures
        *final(prog) == spec_sequence_step(seq_opt, *old(prog), chord, now_ms).0,
        r == spec_sequence_step(seq_opt, *old(prog), chord, now_ms).1,
{
    let Some(seq) = seq_opt else {
        return SlotOutcome::NoMatch;
    };

    let first = seq.first;

    // Single chord
    let Some(second) = seq.second else {
        if chord_matches(first, chord) {
            return SlotOutcome::Fired;
        }
        return SlotOutcome::NoMatch;
    };

    let gap_ms = seq.max_gap_ms as u64;

    if prog.waiting_second {
        let elapsed_ms = now_ms.saturating_sub(prog.first_tick_ms);
        if elapsed_ms > gap_ms {
            prog.waiting_second = false;
            prog.first_tick_ms = 0;
        }
    }

    if prog.waiting_second {
        if chord_matches(second, chord) {
            prog.waiting_second = false;
            prog.first_tick_ms = 0;
            return SlotOutcome::Fired;
        }

        if chord_matches(first, chord) {
            prog.first_tick_ms = now_ms;
            return SlotOutcome::Consumed;
        }

        prog.waiting_second = false;
        prog.first_tick_ms = 0;
        return SlotOutcome::NoMatch;
    }

    if chord_matches(first, chord) {
        prog.waiting_second = true;
        prog.first_tick_ms = now_ms;
        return SlotOutcome::Consumed;
    }

    SlotOutcome::NoMatch
}

/// A stale wait changes nothing about how the incoming chord is treated:
/// once the allowed gap has elapsed, the step from the waiting state equals
/// the step from idle, so the late chord is evaluated fresh against the
/// sequence's first chord.
pub proof fn lemma_expired_wait_reevaluates_fresh(
    seq: HotkeySequence,
    prog: SequenceProgress,
    chord: HotkeyChord,
    now_ms: u64,
)
    requires
        seq.second is Some,
        prog.waiting_second,
        spec_elapsed_ms(now_ms, prog.first_tick_ms) > spec_effective_gap_ms(seq),
    ensures
        spec_sequence_step(Some(seq), prog, chord, now_ms) == spec_sequence_step(Some(seq),
            spec_idle_progress(), chord, now_ms),
{
}

/// While waiting and within the gap, a chord that matches the first chord
/// again keeps the wait and refreshes its timer to the chord's time, and
/// the chord is consumed.
pub proof fn lemma_repeat_first_refreshes(
    seq: HotkeySequence,
    prog: SequenceProgress,
    chord: HotkeyChord,
    now_ms: u64,
)
    requires
        seq.second is Some,
        prog.waiting_second,
        spec_elapsed_ms(now_ms, prog.first_tick_ms) <= spec_effective_gap_ms(seq),
        !spec_chord_matches(seq.second->0, chord),
        spec_chord_matches(seq.first, chord),
    ensures
        spec_sequence_step(Some(seq), prog, chord, now_ms) == (SequenceProgress {
            waiting_second: true,
            first_tick_ms: now_ms,
        }, SlotOutcome::Consumed),
{
}

/// While waiting and within the gap, a chord that matches neither chord of
/// the sequence resets the slot to idle and is reported unmatched, so it
/// passes through to the foreground application.
pub proof fn lemma_waiting_mismatch_resets(
    seq: HotkeySequence,
    prog: SequenceProgress,
    chord: HotkeyChord,
    now_ms: u64,
)
    requires
        seq.second is Some,
        prog.waiting_second,
        spec_elapsed_ms(now_ms, prog.first_tick_ms) <= spec_effective_gap_ms(seq),
        !spec_chord_matches(seq.second->0, chord),
        !spec_chord_matches(seq.first, chord),
    ensures
        spec_sequence_step(Some(seq), prog, chord, now_ms) == (spec_idle_progress(),
            SlotOutcome::NoMatch),
{
}

/// The configured sequence of each slot; `None` means the feature is
/// disabled.
#[derive(Clone, Copy, Debug, PartialEq, Eq, Structural)]
pub struct SlotSequences {
    pub last_word: Option<HotkeySequence>,
    pub pause: Option<HotkeySequence>,
    pub selection: Option<HotkeySequence>,
    pub switch_layout: Option<HotkeySequence>,
}

/// The matching progress of each slot.
#[derive(Clone, Copy, Debug, PartialEq, Eq, Structural)]
pub struct SlotProgress {
    pub last_word: SequenceProgress,
    pub pause: SequenceProgress,
    pub selection: SequenceProgress,
    pub switch_layout: SequenceProgress,
}

impl SlotSequences {
    /// No slot configured.
    pub fn new() -> (r: SlotSequences)
        ensures
            r.last_word is None,
            r.pause is None,
            r.selection is None,
            r.switch_layout is None,
    {
        SlotSequences { last_word: None, pause: None, selection: None, switch_layout: None }
    }

    /// The sequence configured for `slot`.
    pub fn get(&self, slot: HotkeySlot) -> (r: Option<HotkeySequence>)
        ensures
            r == self.spec_get(slot),
    {
        match slot {
            HotkeySlot::LastWord => self.last_word,
            HotkeySlot::Pause => self.pause,
            HotkeySlot::Selection => self.selection,
            HotkeySlot::SwitchLayout => self.switch_layout,
        }
    }

    /// The sequence configured for `slot`.
    pub open spec fn spec_get(&self, slot: HotkeySlot) -> Option<HotkeySequence> {
        match slot {
            HotkeySlot::LastWord => self.last_word,
            HotkeySlot::Pause => self.pause,
            HotkeySlot::Selection => self.selection,
            HotkeySlot::SwitchLayout => self.switch_layout,
        }
    }

    /// The table with `slot`'s sequence replaced.
    pub open spec fn spec_set(&self, slot: HotkeySlot, seq: Option<HotkeySequence>)
        -> SlotSequences {
        match slot {
            HotkeySlot::LastWord => SlotSequences { last_word: seq, ..*self },
            HotkeySlot::Pause => SlotSequences { pause: seq, ..*self },
            HotkeySlot::Selection => SlotSequences { selection: seq, ..*self },
            HotkeySlot::SwitchLayout => SlotSequences { switch_layout: seq, ..*self },
        }
    }

    /// Replaces the sequence configured for `slot`.
    pub fn set(&mut self, slot: HotkeySlot, seq: Option<HotkeySequence>)
        ensures
            *final(self) == old(self).spec_set(slot, seq),
    {
        match slot {
            HotkeySlot::LastWord => self.last_word = seq,
            HotkeySlot::Pause => self.pause = seq,
            HotkeySlot::Selection => self.selection = seq,
            HotkeySlot::SwitchLayout => self.switch_layout = seq,
        }
    }
}

/// The legacy single-key hotkey value of each slot, kept alongside the
/// sequence while capturing.
#[derive(Clone, Copy, Debug, PartialEq, Eq, Structural)]
pub struct SlotHotkeys {
    pub last_word: Option<Hotkey>,
    pub pause: Option<Hotkey>,
    pub selection: Option<Hotkey>,
    pub switch_layout: Option<Hotkey>,
}

impl SlotHotkeys {
    /// No slot configured.
    pub fn new() -> (r: SlotHotkeys)
        ensures
            r.last_word is None,
            r.pause is None,
            r.selection is None,
            r.switch_layout is None,
    {
        SlotHotkeys { last_word: None, pause: None, selection: None, switch_layout: None }
    }

    /// The legacy hotkey of `slot`.
    pub open spec fn spec_get(&self, slot: HotkeySlot) -> Option<Hotkey> {
        match slot {
            HotkeySlot::LastWord => self.last_word,
            HotkeySlot::Pause => self.pause,
            HotkeySlot::Selection => self.selection,
            HotkeySlot::SwitchLayout => self.switch_layout,
        }
    }

    /// The table with `slot`'s hotkey replaced.
    pub open spec fn spec_set(&self, slot: HotkeySlot, hk: Option<Hotkey>) -> SlotHotkeys {
        match slot {
            HotkeySlot::LastWord => SlotHotkeys { last_word: hk, ..*self },
            HotkeySlot::Pause => SlotHotkeys { pause: hk, ..*self },
            HotkeySlot::Selection => SlotHotkeys { selection: hk, ..*self },
            HotkeySlot::SwitchLayout => SlotHotkeys { switch_layout: hk, ..*self },
        }
    }

    /// Replaces the legacy hotkey of `slot`.
    pub fn set(&mut self, slot: HotkeySlot, hk: Option<Hotkey>)
        ensures
            *final(self) == old(self).spec_set(slot, hk),
    {
        match slot {
            HotkeySlot::LastWord => self.last_word = hk,
            HotkeySlot::Pause => self.pause = hk,
            HotkeySlot::Selection => self.selection = hk,
            HotkeySlot::SwitchLayout => self.switch_layout = hk,
        }
    }
}

impl SlotProgress {
    /// Every slot idle.
    pub fn new() -> (r: SlotProgress)
        ensures
            r.last_word == spec_idle_progress(),
            r.pause == spec_idle_progress(),
            r.selection == spec_idle_progress(),
            r.switch_layout == spec_idle_progress(),
    {
        SlotProgress {
            last_word: idle_progress_value(),
            pause: idle_progress_value(),
            selection: idle_progress_value(),
            switch_layout: idle_progress_value(),
        }
    }

    /// The progress of `slot`.
    pub open spec fn spec_get(&self, slot: HotkeySlot) -> SequenceProgress {
        match slot {
            HotkeySlot::LastWord => self.last_word,
            HotkeySlot::Pause => self.pause,
            HotkeySlot::Selection => self.selection,
            HotkeySlot::SwitchLayout => self.switch_layout,
        }
    }

    /// The table with `slot`'s progress replaced.
    pub open spec fn spec_set(&self, slot: HotkeySlot, p: SequenceProgress) -> SlotProgress {
        match slot {
            HotkeySlot::LastWord => SlotProgress { last_word: p, ..*self },
            HotkeySlot::Pause => SlotProgress { pause: p, ..*self },
            HotkeySlot::Selection => SlotProgress { selection: p, ..*self },
            HotkeySlot::SwitchLayout => SlotProgress { switch_layout: p, ..*self },
        }
    }
}

/// An idle progress value.
fn idle_progress_value() -> (r: SequenceProgress)
    ensures
        r == spec_idle_progress(),
{
    SequenceProgress { waiting_second: false, first_tick_ms: 0 }
}

/// A mutable borrow of the progress owned by `slot`.
pub fn progress_for_slot_mut(table: &mut SlotProgress, slot: HotkeySlot) -> (r: &mut
    SequenceProgress)
    ensures
        *r == old(table).spec_get(slot),
        *final(table) == old(table).spec_set(slot, *final(r)),
{
    match slot {
        HotkeySlot::LastWord => &mut table.last_word,
        HotkeySlot::Pause => &mut table.pause,
        HotkeySlot::Selection => &mut table.selection,
        HotkeySlot::SwitchLayout => &mut table.switch_layout,
    }
}

/// Advances the slot's own progress cell inside the table by one chord.
pub fn try_match_slot(
    seqs: &SlotSequences,
    progress: &mut SlotProgress,
    slot: HotkeySlot,
    chord: HotkeyChord,
    now_ms: u64,
) -> (r: SlotOutcome)
    ensures
        ({
            let step = spec_sequence_step(seqs.spec_get(slot), old(progress).spec_get(slot),
                chord, now_ms);
            &&& *final(progress) == old(progress).spec_set(slot, step.0)
            &&& r == step.1
        }),
{
    let seq_opt = seqs.get(slot);
    let prog = progress_for_slot_mut(progress, slot);
    try_match_sequence(prog, seq_opt, chord, now_ms)
}

/// One slot's contribution to the runtime scan: the table with that slot's
/// progress advanced, and the scan result if the slot matched.
pub open spec fn spec_scan_step(
    seqs: SlotSequences,
    progress: SlotProgress,
    slot: HotkeySlot,
    chord: HotkeyChord,
    now_ms: u64,
) -> (SlotProgress, Option<(HotkeySlot, SlotOutcome)>) {
    let step = spec_sequence_step(seqs.spec_get(slot), progress.spec_get(slot), chord, now_ms);
    let updated = progress.spec_set(slot, step.0);
    if step.1 != SlotOutcome::NoMatch {
        (updated, Some((slot, step.1)))
    } else {
        (updated, None)
    }
}

/// The whole runtime scan for one chord. Slots are tried in the fixed
/// priority order switch-layout, last-word, selection, pause, and the scan
/// stops at the first slot that reports anything but `NoMatch`. Slots tried
/// before that one keep the progress their own step left behind; slots
/// after it are untouched.
pub open spec fn spec_try_match_any(
    seqs: SlotSequences,
    progress: SlotProgress,
    chord: HotkeyChord,
    now_ms: u64,
) -> (SlotProgress, Option<(HotkeySlot, SlotOutcome)>) {
    let r0 = spec_scan_step(seqs, progress, HotkeySlot::SwitchLayout, chord, now_ms);
    if r0.1 is Some {
        r0
    } else {
        let r1 = spec_scan_step(seqs, r0.0, HotkeySlot::LastWord, chord, now_ms);
        if r1.1 is Some {
            r1
        } else {
            let r2 = spec_scan_step(seqs, r1.0, HotkeySlot::Selection, chord, now_ms);
            if r2.1 is Some {
                r2
            } else {
                spec_scan_step(seqs, r2.0, HotkeySlot::Pause, chord, now_ms)
            }
        }
    }
}

/// Tries the incoming chord against every configured slot, in the fixed
/// priority order, stopping at the first slot it advances or fires.
pub fn try_match_any_sequence(
    seqs: &SlotSequences,
    progress: &mut SlotProgress,
    chord: HotkeyChord,
    now_ms: u64,
) -> (r: Option<(HotkeySlot, SlotOutcome)>)
    ensures
        ({
            let scan = spec_try_match_any(*seqs, *old(progress), chord, now_ms);
            &&& *final(progress) == scan.0
            &&& r == scan.1
        }),
        r matches Some(m) ==> m.1 != SlotOutcome::NoMatch,
{
    let o0 = try_match_slot(seqs, progress, HotkeySlot::SwitchLayout, chord, now_ms);
    if !matches!(o0, SlotOutcome::NoMatch) {
        return Some((HotkeySlot::SwitchLayout, o0));
    }
    let o1 = try_match_slot(seqs, progress, HotkeySlot::LastWord, chord, now_ms);
    if !matches!(o1, SlotOutcome::NoMatch) {
        return Some((HotkeySlot::LastWord, o1));
    }
    let o2 = try_match_slot(seqs, progress, HotkeySlot::Selection, chord, now_ms);
    if !matches!(o2, SlotOutcome::NoMatch) {
        return Some((HotkeySlot::Selection, o2));
    }
    let o3 = try_match_slot(seqs, progress, HotkeySlot::Pause, chord, now_ms);
    if !matches!(o3, SlotOutcome::NoMatch) {
        return Some((HotkeySlot::Pause, o3));
    }
    None
}

} // verus!
