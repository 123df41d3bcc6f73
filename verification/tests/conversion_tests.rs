use rust_switcher::conversion::{
    SyntheticKey, VK_LEFT_KEY, VK_RIGHT_KEY, VK_SHIFT_KEY, ctrl_combo_events, fill_wide,
    next_layout, reselect_last_inserted_text_utf16_units, unicode_text_events, utf16_units,
};
use rust_switcher::geom::{Layout, RectI};

fn down(vk: u16) -> SyntheticKey {
    SyntheticKey { vk, scan: 0, unicode: false, key_up: false }
}

fn up(vk: u16) -> SyntheticKey {
    SyntheticKey { vk, scan: 0, unicode: false, key_up: true }
}

#[test]
fn utf16_basic_and_surrogates() {
    assert_eq!(utf16_units(""), Vec::<u16>::new());
    assert_eq!(utf16_units("ab"), vec![97, 98]);
    // U+1F600 encodes as a surrogate pair.
    assert_eq!(utf16_units("\u{1F600}"), vec![0xD83D, 0xDE00]);
    // Matches the standard library's encoder.
    let s = "mixed \u{44F} text \u{10348}";
    let expected: Vec<u16> = s.encode_utf16().collect();
    assert_eq!(utf16_units(s), expected);
}

#[test]
fn fill_wide_pads_and_terminates() {
    let mut buf = vec![0xAAAAu16; 8];
    fill_wide(&mut buf, "hi");
    assert_eq!(buf, vec![104, 105, 0, 0, 0, 0, 0, 0]);

    // Longer text is truncated, and the final zero always stands.
    let mut buf = vec![0xAAAAu16; 4];
    fill_wide(&mut buf, "abcdef");
    assert_eq!(buf, vec![97, 98, 99, 0]);

    let mut empty: Vec<u16> = Vec::new();
    fill_wide(&mut empty, "abc");
    assert!(empty.is_empty());
}

#[test]
fn unicode_text_events_pair_each_unit() {
    let units = vec![65u16, 0xD83Du16];
    let ev = unicode_text_events(&units);
    assert_eq!(ev.len(), 4);
    assert_eq!(ev[0], SyntheticKey { vk: 0, scan: 65, unicode: true, key_up: false });
    assert_eq!(ev[1], SyntheticKey { vk: 0, scan: 65, unicode: true, key_up: true });
    assert_eq!(ev[2], SyntheticKey { vk: 0, scan: 0xD83D, unicode: true, key_up: false });
    assert_eq!(ev[3], SyntheticKey { vk: 0, scan: 0xD83D, unicode: true, key_up: true });
}

#[test]
fn ctrl_combo_plan() {
    let ev = ctrl_combo_events(0x43); // Ctrl+C
    assert_eq!(ev.len(), 4);
    assert_eq!(ev[0], down(0x11));
    assert_eq!(ev[1], down(0x43));
    assert_eq!(ev[2], up(0x43));
    assert_eq!(ev[3], up(0x11));
}

#[test]
fn reselect_plan_shape() {
    assert!(reselect_last_inserted_text_utf16_units(0).is_empty());

    let ev = reselect_last_inserted_text_utf16_units(2);
    assert_eq!(ev.len(), 10);
    assert_eq!(ev[0], down(VK_LEFT_KEY));
    assert_eq!(ev[1], up(VK_LEFT_KEY));
    assert_eq!(ev[2], down(VK_LEFT_KEY));
    assert_eq!(ev[3], up(VK_LEFT_KEY));
    assert_eq!(ev[4], down(VK_SHIFT_KEY));
    assert_eq!(ev[5], down(VK_RIGHT_KEY));
    assert_eq!(ev[6], up(VK_RIGHT_KEY));
    assert_eq!(ev[7], down(VK_RIGHT_KEY));
    assert_eq!(ev[8], up(VK_RIGHT_KEY));
    assert_eq!(ev[9], up(VK_SHIFT_KEY));
}

#[test]
fn reselect_plan_caps_unit_count() {
    let ev = reselect_last_inserted_text_utf16_units(100_000);
    assert_eq!(ev.len(), 4 * 4096 + 2);
}

#[test]
fn next_layout_cycles() {
    let layouts = vec![10i64, 20, 30];
    assert_eq!(next_layout(&layouts, 10), 20);
    assert_eq!(next_layout(&layouts, 20), 30);
    // The last layout wraps around to the first.
    assert_eq!(next_layout(&layouts, 30), 10);
    // An unknown current layout lands on the first.
    assert_eq!(next_layout(&layouts, 99), 10);
    // An empty list keeps the current layout.
    assert_eq!(next_layout(&Vec::new(), 42), 42);
}

#[test]
fn dialog_layout_positions() {
    let l = Layout::new();
    assert_eq!(l.left_x(), 12);
    assert_eq!(l.top_y(), 12);
    assert_eq!(l.right_x(), 264);
    assert_eq!(l.group_h(), 170);
    assert_eq!(l.group_w_left(), 240);
    assert_eq!(l.group_w_right(), 260);

    let r = RectI::new(1, 2, 3, 4);
    assert_eq!((r.x, r.y, r.w, r.h), (1, 2, 3, 4));
}
