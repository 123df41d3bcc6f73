//! The computable side of the text-conversion helpers: UTF-16 encoding,
//! the fixed-size wide-string buffers the tray APIs want, the synthetic
//! key-event plans that reselect or retype text, and the choice of the next
//! keyboard layout in the cycle. The embedder performs the actual key
//! injection and layout switch.

use vstd::prelude::*;

verus! {

/// Virtual key of the left arrow.
pub const VK_LEFT_KEY: u16 = 0x25;
/// Virtual key of the right arrow.
pub const VK_RIGHT_KEY: u16 = 0x27;
/// Virtual key of the generic Shift key.
pub const VK_SHIFT_KEY: u16 = 0x10;
/// Virtual key of the generic Ctrl key.
pub const VK_CONTROL_KEY: u16 = 0x11;

/// The largest reselect distance honoured, in UTF-16 units.
pub const RESELECT_MAX_UNITS: usize = 4096;

/// The UTF-16 encoding of one character: itself for the basic plane, a
/// surrogate pair above it.
pub open spec fn spec_utf16_of_char(c: char) -> Seq<u16> {
    if (c as u32) < 0x10000 {
        seq![c as u16]
    } else {
        seq![
            (0xD800 + (((c as u32) - 0x10000) as u32 >> 10)) as u16,
            (0xDC00 + (((c as u32) - 0x10000) as u32 & 0x3FF)) as u16,
        ]
    }
}

/// The UTF-16 encoding of the first `i` characters of `s`.
pub open spec fn spec_utf16_prefix(s: Seq<char>, i: int) -> Seq<u16>
    decreases i,
{
    if i <= 0 {
        Seq::empty()
    } else {
        spec_utf16_prefix(s, i - 1) + spec_utf16_of_char(s[i - 1])
    }
}

/// The UTF-16 encoding of a whole text.
pub open spec fn spec_utf16_of(s: Seq<char>) -> Seq<u16> {
    spec_utf16_prefix(s, s.len() as int)
}

/// Encodes a text as UTF-16 code units.
pub fn utf16_units(s: &str) -> (r: Vec<u16>)
    ensures
        r@ == spec_utf16_of(s@),
{
    let n = s.unicode_len();
    let mut out: Vec<u16> = Vec::new();
    let mut i: usize = 0;
    while i < n
        invariant
            n == s@.len(),
            i <= n,
            out@ == spec_utf16_prefix(s@, i as int),
        decreases n - i,
    {
        let c = s.get_char(i);
        let cv = c as u32;
        if cv < 0x10000 {
            #[verifier::truncate]
            let unit = cv as u16;
            out.push(unit);
        } else {
            let v = cv - 0x10000;
            let shifted = v >> 10;
            let masked = v & 0x3FF;
            proof {
                assert(v >> 10 <= 0x3FFu32) by (bit_vector)
                    requires
                        v <= 0xFFFFFu32,
                ;
                assert(v & 0x3FF < 0x400u32) by (bit_vector);
            }
            #[verifier::truncate]
            let hi = (0xD800 + shifted) as u16;
            #[verifier::truncate]
            let lo = (0xDC00 + masked) as u16;
            out.push(hi);
            out.push(lo);
        }
        i = i + 1;
        proof {
            assert(out@ =~= spec_utf16_prefix(s@, i as int));
        }
    }
    out
}

/// Fills a fixed wide-string buffer from a text: the UTF-16 units of the
/// text, zero-padded, truncated to the buffer, and always terminated with a
/// final zero. An empty buffer is left alone; its length never changes.
pub fn fill_wide(dst: &mut Vec<u16>, s: &str)
    ensures
        final(dst)@.len() == old(dst)@.len(),
        old(dst)@.len() == 0 ==> final(dst)@ == old(dst)@,
        old(dst)@.len() > 0 ==> ({
            let units = spec_utf16_of(s@);
            let body = old(dst)@.len() - 1;
            &&& (forall|i: int|
                0 <= i < body ==> final(dst)@[i] == (if i < units.len() {
                    units[i]
                } else {
                    0u16
                }))
            &&& final(dst)@[body] == 0u16
        }),
{
    let len = dst.len();
    if len == 0 {
        return;
    }

    let units = utf16_units(s);
    let body = len - 1;

    let mut i: usize = 0;
    while i < body
        invariant
            body == len - 1,
            len == dst@.len(),
            i <= body,
            units@ == spec_utf16_of(s@),
            forall|j: int|
                0 <= j < i ==> dst@[j] == (if j < units@.len() {
                    units@[j]
                } else {
                    0u16
                }),
        decreases body - i,
    {
        let v: u16 = if i < units.len() {
            units[i]
        } else {
            0
        };
        dst.set(i, v);
        i = i + 1;
    }
    dst.set(body, 0);
}

/// One synthetic keyboard event handed to the OS input queue: a virtual
/// key or a raw UTF-16 unit, pressed or released.
#[derive(Clone, Copy, Debug, PartialEq, Eq, Structural)]
pub struct SyntheticKey {
    pub vk: u16,
    pub scan: u16,
    pub unicode: bool,
    pub key_up: bool,
}

/// A press of virtual key `vk`.
pub open spec fn spec_key_down(vk: u16) -> SyntheticKey {
    SyntheticKey { vk, scan: 0, unicode: false, key_up: false }
}

/// A release of virtual key `vk`.
pub open spec fn spec_key_up(vk: u16) -> SyntheticKey {
    SyntheticKey { vk, scan: 0, unicode: false, key_up: true }
}

/// The event at position `e` of the unicode typing plan for `units`: the
/// unit at `e / 2`, pressed on even positions and released on odd ones.
pub open spec fn spec_unicode_event(units: Seq<u16>, e: int) -> SyntheticKey {
    SyntheticKey { vk: 0, scan: units[e / 2], unicode: true, key_up: e % 2 == 1 }
}

/// The events that type a text as raw unicode input: each UTF-16 unit
/// pressed and released in order.
pub fn unicode_text_events(units: &Vec<u16>) -> (r: Vec<SyntheticKey>)
    requires
        units@.len() <= 0x7fff_ffff,
    ensures
        r@.len() == 2 * units@.len(),
        forall|e: int| 0 <= e < r@.len() ==> #[trigger] r@[e] == spec_unicode_event(units@, e),
{
    let mut out: Vec<SyntheticKey> = Vec::new();
    let mut i: usize = 0;
    while i < units.len()
        invariant
            i <= units@.len(),
            units@.len() <= 0x7fff_ffff,
            out@.len() == 2 * i,
            forall|e: int|
                0 <= e < out@.len() ==> #[trigger] out@[e] == spec_unicode_event(units@, e),
        decreases units@.len() - i,
    {
        let u = units[i];
        out.push(SyntheticKey { vk: 0, scan: u, unicode: true, key_up: false });
        out.push(SyntheticKey { vk: 0, scan: u, unicode: true, key_up: true });
        i = i + 1;
    }
    out
}

/// The events that hold Ctrl while tapping `vk` once: Ctrl down, the key
/// down and up, Ctrl up.
pub fn ctrl_combo_events(vk: u16) -> (r: Vec<SyntheticKey>)
    ensures
        r@.len() == 4,
        r@[0] == spec_key_down(VK_CONTROL_KEY),
        r@[1] == spec_key_down(vk),
        r@[2] == spec_key_up(vk),
        r@[3] == spec_key_up(VK_CONTROL_KEY),
{
    let mut out: Vec<SyntheticKey> = Vec::new();
    out.push(SyntheticKey { vk: VK_CONTROL_KEY, scan: 0, unicode: false, key_up: false });
    out.push(SyntheticKey { vk, scan: 0, unicode: false, key_up: false });
    out.push(SyntheticKey { vk, scan: 0, unicode: false, key_up: true });
    out.push(SyntheticKey { vk: VK_CONTROL_KEY, scan: 0, unicode: false, key_up: true });
    out
}

/// The number of reselect events planned for `units` units: none for zero,
/// otherwise two taps per unit in each direction plus the Shift press and
/// release, with the unit count capped at the reselect maximum.
pub open spec fn spec_reselect_len(units: int) -> int {
    if units == 0 {
        0
    } else if units < RESELECT_MAX_UNITS {
        4 * units + 2
    } else {
        4 * (RESELECT_MAX_UNITS as int) + 2
    }
}

/// The event at position `e` of the reselect plan for `n` capped units:
/// first `n` left-arrow taps, then Shift down, then `n` right-arrow taps,
/// then Shift up.
pub open spec fn spec_reselect_event(n: int, e: int) -> SyntheticKey {
    if e < 2 * n {
        if e % 2 == 0 {
            spec_key_down(VK_LEFT_KEY)
        } else {
            spec_key_up(VK_LEFT_KEY)
        }
    } else if e == 2 * n {
        spec_key_down(VK_SHIFT_KEY)
    } else if e < 4 * n + 1 {
        if (e - 1) % 2 == 0 {
            spec_key_down(VK_RIGHT_KEY)
        } else {
            spec_key_up(VK_RIGHT_KEY)
        }
    } else {
        spec_key_up(VK_SHIFT_KEY)
    }
}

/// The events that move the caret left over the last inserted text and
/// reselect it with Shift held: `n` left-arrow taps, Shift down, `n`
/// right-arrow taps, Shift up, where `n` is the unit count capped at the
/// reselect maximum. Zero units need no events.
pub fn reselect_last_inserted_text_utf16_units(units: usize) -> (r: Vec<SyntheticKey>)
    ensures
        r@.len() == spec_reselect_len(units as int),
        units != 0 ==> ({
            let n = if units < RESELECT_MAX_UNITS {
                units as int
            } else {
                RESELECT_MAX_UNITS as int
            };
            forall|e: int| 0 <= e < r@.len() ==> #[trigger] r@[e] == spec_reselect_event(n, e)
        }),
{
    let mut out: Vec<SyntheticKey> = Vec::new();
    if units == 0 {
        return out;
    }

    let n = if units < RESELECT_MAX_UNITS {
        units
    } else {
        RESELECT_MAX_UNITS
    };

    let mut i: usize = 0;
    while i < n
        invariant
            i <= n,
            n <= RESELECT_MAX_UNITS,
            out@.len() == 2 * i,
            forall|e: int|
                0 <= e < out@.len() ==> #[trigger] out@[e] == spec_reselect_event(n as int, e),
        decreases n - i,
    {
        out.push(SyntheticKey { vk: VK_LEFT_KEY, scan: 0, unicode: false, key_up: false });
        out.push(SyntheticKey { vk: VK_LEFT_KEY, scan: 0, unicode: false, key_up: true });
        i = i + 1;
    }

    out.push(SyntheticKey { vk: VK_SHIFT_KEY, scan: 0, unicode: false, key_up: false });

    let mut j: usize = 0;
    while j < n
        invariant
            j <= n,
            n <= RESELECT_MAX_UNITS,
            out@.len() == 2 * n + 1 + 2 * j,
            forall|e: int|
                0 <= e < out@.len() ==> #[trigger] out@[e] == spec_reselect_event(n as int, e),
        decreases n - j,
    {
        out.push(SyntheticKey { vk: VK_RIGHT_KEY, scan: 0, unicode: false, key_up: false });
        out.push(SyntheticKey { vk: VK_RIGHT_KEY, scan: 0, unicode: false, key_up: true });
        j = j + 1;
    }

    out.push(SyntheticKey { vk: VK_SHIFT_KEY, scan: 0, unicode: false, key_up: true });
    out
}

/// The position of the first occurrence of `v` in `s` at or after `i`, or
/// `-1` if there is none.
pub open spec fn spec_find_from(s: Seq<i64>, v: i64, i: int) -> int
    decreases s.len() - i,
{
    if i < 0 || i >= s.len() {
        -1
    } else if s[i] == v {
        i
    } else {
        spec_find_from(s, v, i + 1)
    }
}

/// The layout the switcher moves to: the one cyclically after the current
/// layout's first occurrence in the list, the first layout when the current
/// one is not listed, and the current layout when the list is empty.
pub open spec fn spec_next_layout(layouts: Seq<i64>, cur: i64) -> i64 {
    if layouts.len() == 0 {
        cur
    } else {
        let i = spec_find_from(layouts, cur, 0);
        if i >= 0 {
            layouts[(i + 1) % (layouts.len() as int)]
        } else {
            layouts[0]
        }
    }
}

/// Finding nothing up to `i` pushes the search start forward.
proof fn lemma_find_skip(s: Seq<i64>, v: i64, i: int)
    requires
        0 <= i < s.len(),
        s[i] != v,
    ensures
        spec_find_from(s, v, i) == spec_find_from(s, v, i + 1),
{
}

/// Picks the layout to switch to: the one after the current layout in the
/// cycle. Layout handles are carried as plain integer values.
pub fn next_layout(layouts: &Vec<i64>, cur: i64) -> (r: i64)
    ensures
        r == spec_next_layout(layouts@, cur),
{
    let len = layouts.len();
    if len == 0 {
        return cur;
    }

    let mut i: usize = 0;
    while i < len
        invariant
            len == layouts@.len(),
            0 < len,
            i <= len,
            spec_find_from(layouts@, cur, 0) == spec_find_from(layouts@, cur, i as int),
        decreases len - i,
    {
        if layouts[i] == cur {
            let next = (i + 1) % len;
            return layouts[next];
        }
        proof {
            lemma_find_skip(layouts@, cur, i as int);
        }
        i = i + 1;
    }

    layouts[0]
}

} // verus!
