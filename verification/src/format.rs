//! Human-readable rendering of hotkeys and sequences, as shown in the
//! settings dialog's capture fields.

use vstd::prelude::*;
use crate::chords::{Hotkey, HotkeyChord, HotkeySequence};
use crate::keys::{MOD_ALT, MOD_CONTROL, MOD_SHIFT, MOD_WIN};

verus! {

/// The decimal digit `d` as one character of text.
pub open spec fn spec_digit_text(d: u32) -> Seq<char> {
    if d == 0 {
        "0"@
    } else if d == 1 {
        "1"@
    } else if d == 2 {
        "2"@
    } else if d == 3 {
        "3"@
    } else if d == 4 {
        "4"@
    } else if d == 5 {
        "5"@
    } else if d == 6 {
        "6"@
    } else if d == 7 {
        "7"@
    } else if d == 8 {
        "8"@
    } else {
        "9"@
    }
}

/// The decimal rendering of `n`, most significant digit first.
pub open spec fn spec_decimal_text(n: u32) -> Seq<char>
    decreases n,
{
    if n < 10 {
        spec_digit_text(n)
    } else {
        spec_decimal_text(n / 10) + spec_digit_text(n % 10)
    }
}

/// A decimal digit renders as exactly one character.
proof fn lemma_digit_text_len(d: u32)
    ensures
        spec_digit_text(d).len() == 1,
{
    reveal_strlit("0");
    reveal_strlit("1");
    reveal_strlit("2");
    reveal_strlit("3");
    reveal_strlit("4");
    reveal_strlit("5");
    reveal_strlit("6");
    reveal_strlit("7");
    reveal_strlit("8");
    reveal_strlit("9");
}

/// A decimal rendering is never empty.
proof fn lemma_decimal_text_len(n: u32)
    ensures
        spec_decimal_text(n).len() >= 1,
    decreases n,
{
    if n < 10 {
        lemma_digit_text_len(n);
    } else {
        lemma_decimal_text_len(n / 10);
        lemma_digit_text_len(n % 10);
    }
}

/// The digit `d` as a text fragment.
fn digit_str(d: u32) -> (r: &'static str)
    requires
        d < 10,
    ensures
        r@ == spec_digit_text(d),
{
    match d {
        0 => "0",
        1 => "1",
        2 => "2",
        3 => "3",
        4 => "4",
        5 => "5",
        6 => "6",
        7 => "7",
        8 => "8",
        _ => "9",
    }
}

/// Appends the decimal rendering of `n`.
fn append_decimal(s: &mut String, n: u32)
    ensures
        final(s)@ == old(s)@ + spec_decimal_text(n),
    decreases n,
{
    if n >= 10 {
        append_decimal(s, n / 10);
    }
    s.append(digit_str(n % 10));
}

/// The display name of a virtual key: letters and digits as themselves,
/// anything else as `VK` followed by the decimal key number.
pub open spec fn spec_vk_name(vk: u32) -> Seq<char> {
    if vk == 0x41 {
        "A"@
    } else if vk == 0x42 {
        "B"@
    } else if vk == 0x43 {
        "C"@
    } else if vk == 0x44 {
        "D"@
    } else if vk == 0x45 {
        "E"@
    } else if vk == 0x46 {
        "F"@
    } else if vk == 0x47 {
        "G"@
    } else if vk == 0x48 {
        "H"@
    } else if vk == 0x49 {
        "I"@
    } else if vk == 0x4A {
        "J"@
    } else if vk == 0x4B {
        "K"@
    } else if vk == 0x4C {
        "L"@
    } else if vk == 0x4D {
        "M"@
    } else if vk == 0x4E {
        "N"@
    } else if vk == 0x4F {
        "O"@
    } else if vk == 0x50 {
        "P"@
    } else if vk == 0x51 {
        "Q"@
    } else if vk == 0x52 {
        "R"@
    } else if vk == 0x53 {
        "S"@
    } else if vk == 0x54 {
        "T"@
    } else if vk == 0x55 {
        "U"@
    } else if vk == 0x56 {
        "V"@
    } else if vk == 0x57 {
        "W"@
    } else if vk == 0x58 {
        "X"@
    } else if vk == 0x59 {
        "Y"@
    } else if vk == 0x5A {
        "Z"@
    } else if 0x30 <= vk && vk <= 0x39 {
        spec_digit_text((vk - 0x30) as u32)
    } else {
        "VK"@ + spec_decimal_text(vk)
    }
}

/// A key name is never empty.
proof fn lemma_vk_name_len(vk: u32)
    ensures
        spec_vk_name(vk).len() >= 1,
{
    reveal_strlit("A");
    reveal_strlit("B");
    reveal_strlit("C");
    reveal_strlit("D");
    reveal_strlit("E");
    reveal_strlit("F");
    reveal_strlit("G");
    reveal_strlit("H");
    reveal_strlit("I");
    reveal_strlit("J");
    reveal_strlit("K");
    reveal_strlit("L");
    reveal_strlit("M");
    reveal_strlit("N");
    reveal_strlit("O");
    reveal_strlit("P");
    reveal_strlit("Q");
    reveal_strlit("R");
    reveal_strlit("S");
    reveal_strlit("T");
    reveal_strlit("U");
    reveal_strlit("V");
    reveal_strlit("W");
    reveal_strlit("X");
    reveal_strlit("Y");
    reveal_strlit("Z");
    reveal_strlit("VK");
    if 0x30 <= vk && vk <= 0x39 {
        lemma_digit_text_len((vk - 0x30) as u32);
    }
    if !(0x41 <= vk && vk <= 0x5A) && !(0x30 <= vk && vk <= 0x39) {
        lemma_decimal_text_len(vk);
    }
}

/// The display name of a virtual key.
pub fn vk_name(vk: u32) -> (r: String)
    ensures
        r@ == spec_vk_name(vk),
{
    if 0x41 <= vk && vk <= 0x5A {
        match vk {
            0x41 => String::from_str("A"),
            0x42 => String::from_str("B"),
            0x43 => String::from_str("C"),
            0x44 => String::from_str("D"),
            0x45 => String::from_str("E"),
            0x46 => String::from_str("F"),
            0x47 => String::from_str("G"),
            0x48 => String::from_str("H"),
            0x49 => String::from_str("I"),
            0x4A => String::from_str("J"),
            0x4B => String::from_str("K"),
            0x4C => String::from_str("L"),
            0x4D => String::from_str("M"),
            0x4E => String::from_str("N"),
            0x4F => String::from_str("O"),
            0x50 => String::from_str("P"),
            0x51 => String::from_str("Q"),
            0x52 => String::from_str("R"),
            0x53 => String::from_str("S"),
            0x54 => String::from_str("T"),
            0x55 => String::from_str("U"),
            0x56 => String::from_str("V"),
            0x57 => String::from_str("W"),
            0x58 => String::from_str("X"),
            0x59 => String::from_str("Y"),
            _ => String::from_str("Z"),
        }
    } else if 0x30 <= vk && vk <= 0x39 {
        let mut s = String::new();
        append_decimal(&mut s, vk - 0x30);
        s
    } else {
        let mut s = String::from_str("VK");
        append_decimal(&mut s, vk);
        s
    }
}

/// `part` appended to a piece of text under construction, with a `+`
/// separator when something already stands there.
pub open spec fn spec_append_part(s: Seq<char>, part: Seq<char>) -> Seq<char> {
    if s.len() == 0 {
        part
    } else {
        s + "+"@ + part
    }
}

/// The held modifiers rendered in the fixed order Ctrl, Shift, Alt, Win,
/// joined by `+`.
pub open spec fn spec_mods_text(mods: u32) -> Seq<char> {
    let s0 = Seq::<char>::empty();
    let s1 = if mods & MOD_CONTROL != 0 {
        spec_append_part(s0, "Ctrl"@)
    } else {
        s0
    };
    let s2 = if mods & MOD_SHIFT != 0 {
        spec_append_part(s1, "Shift"@)
    } else {
        s1
    };
    let s3 = if mods & MOD_ALT != 0 {
        spec_append_part(s2, "Alt"@)
    } else {
        s2
    };
    if mods & MOD_WIN != 0 {
        spec_append_part(s3, "Win"@)
    } else {
        s3
    }
}

/// The rendering of a legacy single-key hotkey: the held modifiers, then
/// the key name, joined by `+`; an empty hotkey renders as `None`.
pub open spec fn spec_format_hotkey(hk: Option<Hotkey>) -> Seq<char> {
    match hk {
        None => "None"@,
        Some(h) => {
            let body = if h.vk != 0 {
                spec_append_part(spec_mods_text(h.mods), spec_vk_name(h.vk))
            } else {
                spec_mods_text(h.mods)
            };
            if body.len() == 0 {
                "None"@
            } else {
                body
            }
        },
    }
}

/// The rendering of one chord: the held modifiers, then the key name if the
/// chord has a key, joined by `+`; an empty chord renders as `None`.
pub open spec fn spec_format_chord(ch: HotkeyChord) -> Seq<char> {
    let body = match ch.vk {
        Some(vk) => spec_append_part(spec_mods_text(ch.mods), spec_vk_name(vk)),
        None => spec_mods_text(ch.mods),
    };
    if body.len() == 0 {
        "None"@
    } else {
        body
    }
}

/// The rendering of a configured sequence: its first chord, and the second
/// chord after a comma if there is one; no sequence renders as `None`.
pub open spec fn spec_format_hotkey_sequence(seq: Option<HotkeySequence>) -> Seq<char> {
    match seq {
        None => "None"@,
        Some(s) => match s.second {
            None => spec_format_chord(s.first),
            Some(second) => spec_format_chord(s.first) + ", "@ + spec_format_chord(second),
        },
    }
}

/// Appends `part`, with a `+` separator when the text is already nonempty.
/// `has_parts` says whether it is.
fn append_part(s: &mut String, has_parts: bool, part: &str)
    requires
        has_parts <==> old(s)@.len() != 0,
    ensures
        final(s)@ == spec_append_part(old(s)@, part@),
{
    if has_parts {
        s.append("+");
    }
    s.append(part);
}

/// Builds the modifier part of a rendering and reports whether anything was
/// appended.
fn mods_text(mods: u32) -> (r: (String, bool))
    ensures
        r.0@ == spec_mods_text(mods),
        r.1 <==> r.0@.len() != 0,
{
    proof {
        reveal_strlit("Ctrl");
        reveal_strlit("Shift");
        reveal_strlit("Alt");
        reveal_strlit("Win");
        reveal_strlit("+");
    }
    let mut s = String::new();
    let mut has: bool = false;

    if mods & MOD_CONTROL != 0 {
        append_part(&mut s, has, "Ctrl");
        has = true;
    }
    if mods & MOD_SHIFT != 0 {
        append_part(&mut s, has, "Shift");
        has = true;
    }
    if mods & MOD_ALT != 0 {
        append_part(&mut s, has, "Alt");
        has = true;
    }
    if mods & MOD_WIN != 0 {
        append_part(&mut s, has, "Win");
        has = true;
    }
    (s, has)
}

/// Renders a legacy single-key hotkey for display.
pub fn format_hotkey(hk: Option<Hotkey>) -> (r: String)
    ensures
        r@ == spec_format_hotkey(hk),
{
    let Some(h) = hk else {
        return String::from_str("None");
    };

    let (mut s, has) = mods_text(h.mods);

    if h.vk != 0 {
        proof {
            reveal_strlit("+");
            lemma_vk_name_len(h.vk);
        }
        let name = vk_name(h.vk);
        append_part(&mut s, has, name.as_str());
        return s;
    }

    if has {
        s
    } else {
        String::from_str("None")
    }
}

/// Renders one chord for display.
pub fn format_chord(ch: HotkeyChord) -> (r: String)
    ensures
        r@ == spec_format_chord(ch),
{
    let (mut s, has) = mods_text(ch.mods);

    match ch.vk {
        Some(vk) => {
            proof {
                reveal_strlit("+");
                lemma_vk_name_len(vk);
            }
            let name = vk_name(vk);
            append_part(&mut s, has, name.as_str());
            s
        },
        None => {
            if has {
                s
            } else {
                String::from_str("None")
            }
        },
    }
}

/// Renders a configured sequence for the settings dialog's capture field.
pub fn format_hotkey_sequence(seq: Option<HotkeySequence>) -> (r: String)
    ensures
        r@ == spec_format_hotkey_sequence(seq),
{
    let Some(s) = seq else {
        return String::from_str("None");
    };

    let mut text = format_chord(s.first);
    if let Some(second) = s.second {
        text.append(", ");
        let second_text = format_chord(second);
        text.append(second_text.as_str());
    }
    text
}

} // verus!
