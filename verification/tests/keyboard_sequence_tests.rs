use rust_switcher::chords::HotkeyChord;
use rust_switcher::chords::HotkeySequence;
use rust_switcher::sequence::{SequenceProgress, SlotOutcome, try_match_sequence};

fn ch(mods: u32, mods_vks: u32, vk: Option<u32>) -> HotkeyChord {
    HotkeyChord { mods, mods_vks, vk }
}

#[test]
fn chord_matches_requires_same_mods() {
    let t = ch(1, 0, Some(65));
    let i = ch(2, 0, Some(65));
    assert!(!rust_switcher::chords::chord_matches(t, i));
}

#[test]
fn chord_matches_requires_same_mods_vks() {
    let t = ch(0, 4, Some(65));
    let i = ch(0, 8, Some(65));
    assert!(!rust_switcher::chords::chord_matches(t, i));
}

#[test]
fn chord_matches_vk_none_requires_none() {
    let t = ch(1, 0, None);

    let i_some = ch(1, 0, Some(70));
    assert!(!rust_switcher::chords::chord_matches(t, i_some));

    let i_none = ch(1, 0, None);
    assert!(rust_switcher::chords::chord_matches(t, i_none));
}

#[test]
fn chord_matches_vk_some_requires_exact() {
    let t = ch(1, 0, Some(65));
    let i = ch(1, 0, Some(66));
    assert!(!rust_switcher::chords::chord_matches(t, i));
}

#[test]
fn chord_matches_wildcard_ignores_observed_variants() {
    let t = ch(2, 0, Some(65));
    assert!(rust_switcher::chords::chord_matches(t, ch(2, 1, Some(65))));
    assert!(rust_switcher::chords::chord_matches(t, ch(2, 2, Some(65))));
    assert!(!rust_switcher::chords::chord_matches(t, ch(1, 1, Some(65))));
}

#[test]
fn chord_matches_nonzero_variants_compared() {
    let t = ch(2, 1, Some(65));
    assert!(rust_switcher::chords::chord_matches(t, ch(2, 1, Some(65))));
    assert!(!rust_switcher::chords::chord_matches(t, ch(2, 2, Some(65))));
}

fn idle() -> SequenceProgress {
    SequenceProgress { waiting_second: false, first_tick_ms: 0 }
}

fn two_chord_seq() -> HotkeySequence {
    HotkeySequence {
        first: ch(2, 0, Some(65)),
        second: Some(ch(4, 0, Some(66))),
        max_gap_ms: 250,
    }
}

#[test]
fn two_chord_sequence_fires_within_gap() {
    let seq = Some(two_chord_seq());
    let mut prog = idle();

    let out = try_match_sequence(&mut prog, seq, ch(2, 0, Some(65)), 0);
    assert_eq!(out, SlotOutcome::Consumed);
    assert!(prog.waiting_second);
    assert_eq!(prog.first_tick_ms, 0);

    let out = try_match_sequence(&mut prog, seq, ch(4, 0, Some(66)), 200);
    assert_eq!(out, SlotOutcome::Fired);
    assert!(!prog.waiting_second);
}

#[test]
fn two_chord_sequence_expires_and_reevaluates_fresh() {
    let seq = Some(two_chord_seq());
    let mut prog = idle();

    let out = try_match_sequence(&mut prog, seq, ch(2, 0, Some(65)), 0);
    assert_eq!(out, SlotOutcome::Consumed);

    // Late second chord: the wait has expired, and the chord does not
    // match `first`, so the slot resets and reports no match.
    let out = try_match_sequence(&mut prog, seq, ch(4, 0, Some(66)), 260);
    assert_eq!(out, SlotOutcome::NoMatch);
    assert!(!prog.waiting_second);

    // A late chord that is itself a valid first chord starts a new attempt
    // immediately.
    let mut prog = idle();
    let _ = try_match_sequence(&mut prog, seq, ch(2, 0, Some(65)), 0);
    let out = try_match_sequence(&mut prog, seq, ch(2, 0, Some(65)), 260);
    assert_eq!(out, SlotOutcome::Consumed);
    assert!(prog.waiting_second);
    assert_eq!(prog.first_tick_ms, 260);
}

#[test]
fn repeating_first_chord_refreshes_wait() {
    let seq = Some(two_chord_seq());
    let mut prog = idle();

    let out = try_match_sequence(&mut prog, seq, ch(2, 0, Some(65)), 0);
    assert_eq!(out, SlotOutcome::Consumed);
    assert_eq!(prog.first_tick_ms, 0);

    let out = try_match_sequence(&mut prog, seq, ch(2, 0, Some(65)), 100);
    assert_eq!(out, SlotOutcome::Consumed);
    assert!(prog.waiting_second);
    assert_eq!(prog.first_tick_ms, 100);

    // The refreshed timer keeps the second chord valid at t=300.
    let out = try_match_sequence(&mut prog, seq, ch(4, 0, Some(66)), 300);
    assert_eq!(out, SlotOutcome::Fired);
}

#[test]
fn waiting_mismatch_resets_and_passes() {
    let seq = Some(two_chord_seq());
    let mut prog = idle();

    let _ = try_match_sequence(&mut prog, seq, ch(2, 0, Some(65)), 0);
    assert!(prog.waiting_second);

    let out = try_match_sequence(&mut prog, seq, ch(8, 0, Some(67)), 100);
    assert_eq!(out, SlotOutcome::NoMatch);
    assert!(!prog.waiting_second);
}

#[test]
fn single_chord_sequence_fires_immediately() {
    let seq = Some(HotkeySequence {
        first: ch(2, 0, Some(65)),
        second: None,
        max_gap_ms: 250,
    });
    let mut prog = idle();

    let out = try_match_sequence(&mut prog, seq, ch(2, 0, Some(65)), 5);
    assert_eq!(out, SlotOutcome::Fired);
    assert!(!prog.waiting_second);

    let out = try_match_sequence(&mut prog, seq, ch(4, 0, Some(65)), 6);
    assert_eq!(out, SlotOutcome::NoMatch);
}
