//! Global hotkeys: parsing of hotkey descriptions such as `"Control + Win"`,
//! matching them against the keyboard state, and the decisions the
//! low-level keyboard hook takes on every key event.

use vstd::prelude::*;
use crate::text::{
    all_ascii, ascii_lower, ascii_lower_seq, ascii_upper, ascii_upper_seq, chars_of, split,
    split_seq, str_equal, string_from_chars, views,
};

verus! {

/// Which kind of recording a hotkey drives.
#[derive(Debug, Clone, Copy, PartialEq, Eq, Structural)]
pub enum RecordingType {
    Transcribe,
    Notes,
}

/// What the keyboard hook reports to the application.
#[derive(Debug, Clone, Copy, PartialEq, Eq, Structural)]
pub enum HotkeyEvent {
    Pressed(RecordingType),
    Released(RecordingType),
    Cancelled(RecordingType),
    GlobalCancel,
}

/// The hotkey descriptions the hook listens for.
pub struct HotkeyBindings {
    pub transcribe: String,
    pub notes: String,
    pub cancel: String,
}

impl HotkeyBindings {
    /// The bindings in force before any configuration is loaded.
    pub fn new() -> (b: HotkeyBindings)
        ensures
            b.transcribe@ == "Control"@,
            b.notes@ == "Control + Win"@,
            b.cancel@ == "Escape"@,
    {
        HotkeyBindings {
            transcribe: String::from_str("Control"),
            notes: String::from_str("Control + Win"),
            cancel: String::from_str("Escape"),
        }
    }
}

/// Replaces the three hotkey descriptions the hook listens for.
pub fn update_hotkeys(bindings: &mut HotkeyBindings, transcribe: &str, notes: &str, cancel: &str)
    ensures
        final(bindings).transcribe@ == transcribe@,
        final(bindings).notes@ == notes@,
        final(bindings).cancel@ == cancel@,
{
    bindings.transcribe = String::from_str(transcribe);
    bindings.notes = String::from_str(notes);
    bindings.cancel = String::from_str(cancel);
}

/// What `str::to_lowercase` returns for a string (full Unicode lowercase
/// mapping, including the context-dependent final sigma).
pub uninterp spec fn unicode_lowercase(s: Seq<char>) -> Seq<char>;

/// `str::to_lowercase`. Its documentation lowers ASCII characters as
/// `to_ascii_lowercase` does, so a text of ASCII characters comes back in
/// ASCII lower case; what it does to other characters is left to the name.
#[verifier::external_body]
fn to_lowercase(s: &str) -> (r: String)
    ensures
        r@ == unicode_lowercase(s@),
        all_ascii(s@) ==> r@ == ascii_lower_seq(s@),
{
    s.to_lowercase()
}

/// Virtual-key code of a named key, given the key name in lower case.
pub open spec fn named_key_vk(lower: Seq<char>) -> Option<u32> {
    if lower == "escape"@ || lower == "esc"@ {
        Some(0x1Bu32)
    } else if lower == "backquote"@ || lower == "`"@ || lower == "~"@ {
        Some(0xC0u32)
    } else if lower == "f1"@ {
        Some(0x70u32)
    } else if lower == "f2"@ {
        Some(0x71u32)
    } else if lower == "f3"@ {
        Some(0x72u32)
    } else if lower == "f4"@ {
        Some(0x73u32)
    } else if lower == "f5"@ {
        Some(0x74u32)
    } else if lower == "f6"@ {
        Some(0x75u32)
    } else if lower == "f7"@ {
        Some(0x76u32)
    } else if lower == "f8"@ {
        Some(0x77u32)
    } else if lower == "f9"@ {
        Some(0x78u32)
    } else if lower == "f10"@ {
        Some(0x79u32)
    } else if lower == "f11"@ {
        Some(0x7Au32)
    } else if lower == "f12"@ {
        Some(0x7Bu32)
    } else if lower == "scrolllock"@ || lower == "scroll lock"@ {
        Some(0x91u32)
    } else if lower == "space"@ {
        Some(0x20u32)
    } else if lower == "tab"@ {
        Some(0x09u32)
    } else if lower == "backspace"@ {
        Some(0x08u32)
    } else if lower == "enter"@ || lower == "return"@ {
        Some(0x0Du32)
    } else if lower == "delete"@ || lower == "del"@ {
        Some(0x2Eu32)
    } else if lower == "insert"@ || lower == "ins"@ {
        Some(0x2Du32)
    } else if lower == "home"@ {
        Some(0x24u32)
    } else if lower == "end"@ {
        Some(0x23u32)
    } else if lower == "pageup"@ || lower == "page up"@ {
        Some(0x21u32)
    } else if lower == "pagedown"@ || lower == "page down"@ {
        Some(0x22u32)
    } else {
        None
    }
}

/// A key given as one ASCII letter or digit maps to that character's code
/// (letters in upper case); anything else falls back to Escape.
/// One ASCII character is exactly a name of one byte.
pub open spec fn single_char_vk(key: Seq<char>) -> u32 {
    if key.len() == 1 && (key[0] as u32) < 128 {
        let c = ascii_upper(key[0]);
        if ('A' <= c <= 'Z') || ('0' <= c <= '9') {
            c as u32
        } else {
            0x1Bu32
        }
    } else {
        0x1Bu32
    }
}

/// The virtual-key code of a key, given its name and that name in lower case.
pub open spec fn key_vk(lower: Seq<char>, key: Seq<char>) -> u32 {
    match named_key_vk(lower) {
        Some(v) => v,
        None => single_char_vk(key),
    }
}

/// The virtual-key code of a key name such as `"Escape"`, `"F5"` or `"Q"`.
pub open spec fn cancel_vk_spec(key: Seq<char>) -> u32 {
    key_vk(unicode_lowercase(key), key)
}

/// The virtual-key code of a key name made of ASCII characters, whose
/// lower case is its ASCII lower case.
pub open spec fn ascii_key_vk(key: Seq<char>) -> u32 {
    key_vk(ascii_lower_seq(key), key)
}

proof fn lemma_ascii_case_chars(c: char)
    requires
        (c as u32) < 128,
    ensures
        (ascii_lower(c) as u32) < 128,
        (ascii_upper(c) as u32) < 128,
        ascii_lower(ascii_lower(c)) == ascii_lower(c),
        ascii_lower(ascii_upper(c)) == ascii_lower(c),
        ascii_upper(ascii_lower(c)) == ascii_upper(c),
        ascii_upper(ascii_upper(c)) == ascii_upper(c),
{
}

/// Key names ignore ASCII case: an ASCII key name, its ASCII lower case and
/// its ASCII upper case name the same key (so `"esc"` and `"ESC"` are both
/// Escape, `"c"` and `"C"` both the C key).
pub proof fn lemma_key_name_case_insensitive(key: Seq<char>)
    requires
        all_ascii(key),
    ensures
        all_ascii(ascii_lower_seq(key)),
        all_ascii(ascii_upper_seq(key)),
        ascii_key_vk(ascii_lower_seq(key)) == ascii_key_vk(key),
        ascii_key_vk(ascii_upper_seq(key)) == ascii_key_vk(key),
{
    let lo = ascii_lower_seq(key);
    let up = ascii_upper_seq(key);
    assert forall|i: int| 0 <= i < key.len() implies {
        &&& (lo[i] as u32) < 128
        &&& (up[i] as u32) < 128
        &&& ascii_lower(lo[i]) == ascii_lower(key[i])
        &&& ascii_lower(up[i]) == ascii_lower(key[i])
        &&& ascii_upper(lo[i]) == ascii_upper(key[i])
        &&& ascii_upper(up[i]) == ascii_upper(key[i])
    } by {
        lemma_ascii_case_chars(key[i]);
    }
    assert(ascii_lower_seq(lo) =~= lo);
    assert(ascii_lower_seq(up) =~= lo);
}

fn named_key_vk_exec(lower: &str) -> (r: Option<u32>)
    ensures
        r == named_key_vk(lower@),
{
    if str_equal(lower, "escape") || str_equal(lower, "esc") {
        Some(0x1B)
    } else if str_equal(lower, "backquote") || str_equal(lower, "`") || str_equal(lower, "~") {
        Some(0xC0)
    } else if str_equal(lower, "f1") {
        Some(0x70)
    } else if str_equal(lower, "f2") {
        Some(0x71)
    } else if str_equal(lower, "f3") {
        Some(0x72)
    } else if str_equal(lower, "f4") {
        Some(0x73)
    } else if str_equal(lower, "f5") {
        Some(0x74)
    } else if str_equal(lower, "f6") {
        Some(0x75)
    } else if str_equal(lower, "f7") {
        Some(0x76)
    } else if str_equal(lower, "f8") {
        Some(0x77)
    } else if str_equal(lower, "f9") {
        Some(0x78)
    } else if str_equal(lower, "f10") {
        Some(0x79)
    } else if str_equal(lower, "f11") {
        Some(0x7A)
    } else if str_equal(lower, "f12") {
        Some(0x7B)
    } else if str_equal(lower, "scrolllock") || str_equal(lower, "scroll lock") {
        Some(0x91)
    } else if str_equal(lower, "space") {
        Some(0x20)
    } else if str_equal(lower, "tab") {
        Some(0x09)
    } else if str_equal(lower, "backspace") {
        Some(0x08)
    } else if str_equal(lower, "enter") || str_equal(lower, "return") {
        Some(0x0D)
    } else if str_equal(lower, "delete") || str_equal(lower, "del") {
        Some(0x2E)
    } else if str_equal(lower, "insert") || str_equal(lower, "ins") {
        Some(0x2D)
    } else if str_equal(lower, "home") {
        Some(0x24)
    } else if str_equal(lower, "end") {
        Some(0x23)
    } else if str_equal(lower, "pageup") || str_equal(lower, "page up") {
        Some(0x21)
    } else if str_equal(lower, "pagedown") || str_equal(lower, "page down") {
        Some(0x22)
    } else {
        None
    }
}

/// The virtual-key code of `key_name`, given `lower`, its lower-case form.
pub fn key_vk_exec(lower: &str, key_name: &str) -> (r: u32)
    ensures
        r == key_vk(lower@, key_name@),
{
    match named_key_vk_exec(lower) {
        Some(v) => v,
        None => {
            let v = chars_of(key_name);
            if v.len() == 1 && (v[0] as u32) < 128 {
                let c0 = v[0];
                let c = if 'a' <= c0 && c0 <= 'z' {
                    ((c0 as u32) - 32) as u8 as char
                } else {
                    c0
                };
                assert(c == ascii_upper(v@[0]));
                if ('A' <= c && c <= 'Z') || ('0' <= c && c <= '9') {
                    c as u32
                } else {
                    0x1B
                }
            } else {
                0x1B
            }
        },
    }
}

/// The virtual-key code of a key name such as `"Escape"`, `"F5"` or `"Q"`;
/// unknown names fall back to Escape.
pub fn get_cancel_vk(key_name: &str) -> (r: u32)
    ensures
        r == cancel_vk_spec(key_name@),
        all_ascii(key_name@) ==> r == ascii_key_vk(key_name@),
{
    let lower = to_lowercase(key_name);
    key_vk_exec(lower.as_str(), key_name)
}

/// A hotkey description taken apart.
#[derive(Debug, Clone, Copy, PartialEq, Eq, Structural)]
pub struct ParsedHotkey {
    /// Whether the hotkey ends in a key that is not a modifier.
    pub has_base_key: bool,
    /// The virtual-key code of that key (0 when there is none).
    pub base_vk: u32,
    pub ctrl: bool,
    pub win: bool,
    pub shift: bool,
    pub alt: bool,
}

/// A lower-cased part of a description naming the Control modifier.
pub open spec fn is_ctrl_name(l: Seq<char>) -> bool {
    l == "control"@ || l == "ctrl"@
}

/// A lower-cased part naming the Windows (Meta) modifier.
pub open spec fn is_win_name(l: Seq<char>) -> bool {
    l == "win"@ || l == "meta"@
}

/// A lower-cased part naming the Shift modifier.
pub open spec fn is_shift_name(l: Seq<char>) -> bool {
    l == "shift"@
}

/// A lower-cased part naming the Alt modifier.
pub open spec fn is_alt_name(l: Seq<char>) -> bool {
    l == "alt"@
}

/// A lower-cased part naming any modifier.
pub open spec fn is_modifier_name(l: Seq<char>) -> bool {
    is_ctrl_name(l) || is_win_name(l) || is_shift_name(l) || is_alt_name(l)
}

/// The parts of a hotkey description, separated by `" + "`.
pub open spec fn hotkey_parts(target: Seq<char>) -> Seq<Seq<char>> {
    split_seq(target, " + "@)
}

/// Some part among the first `n` names the given modifier (after lowering).
pub open spec fn names_modifier(
    parts: Seq<Seq<char>>,
    n: int,
    is_mod: spec_fn(Seq<char>) -> bool,
) -> bool {
    exists|i: int| 0 <= i < n && is_mod(unicode_lowercase(#[trigger] parts[i]))
}

/// A hotkey description taken apart: when the last part names a modifier,
/// the hotkey is made of modifiers only, read from all parts; otherwise the
/// last part is the base key and the modifiers are read from the others.
#[verifier::opaque]
pub open spec fn parse_hotkey_spec(target: Seq<char>) -> ParsedHotkey {
    let parts = hotkey_parts(target);
    let last = parts[parts.len() - 1];
    if is_modifier_name(unicode_lowercase(last)) {
        ParsedHotkey {
            has_base_key: false,
            base_vk: 0,
            ctrl: names_modifier(parts, parts.len() as int, |l: Seq<char>| is_ctrl_name(l)),
            win: names_modifier(parts, parts.len() as int, |l: Seq<char>| is_win_name(l)),
            shift: names_modifier(parts, parts.len() as int, |l: Seq<char>| is_shift_name(l)),
            alt: names_modifier(parts, parts.len() as int, |l: Seq<char>| is_alt_name(l)),
        }
    } else {
        ParsedHotkey {
            has_base_key: true,
            base_vk: cancel_vk_spec(last),
            ctrl: names_modifier(parts, parts.len() - 1, |l: Seq<char>| is_ctrl_name(l)),
            win: names_modifier(parts, parts.len() - 1, |l: Seq<char>| is_win_name(l)),
            shift: names_modifier(parts, parts.len() - 1, |l: Seq<char>| is_shift_name(l)),
            alt: names_modifier(parts, parts.len() - 1, |l: Seq<char>| is_alt_name(l)),
        }
    }
}

/// Parses a hotkey description such as `"Control + Shift + C"`.
pub fn parse_hotkey(target: &str) -> (p: ParsedHotkey)
    ensures
        p == parse_hotkey_spec(target@),
        forall|k: int|
            0 <= k < hotkey_parts(target@).len() && all_ascii(#[trigger] hotkey_parts(target@)[k])
                ==> unicode_lowercase(hotkey_parts(target@)[k]) == ascii_lower_seq(
                hotkey_parts(target@)[k],
            ),
{
    proof {
        reveal_strlit(" + ");
        reveal(parse_hotkey_spec);
    }
    let t = chars_of(target);
    let sep = chars_of(" + ");
    let parts = split(&t, &sep);
    let ghost ps = views(parts@);
    assert(ps == hotkey_parts(target@));
    let n = parts.len();
    let last = string_from_chars(&parts[n - 1]);
    let last_lower = to_lowercase(last.as_str());
    assert(last@ == ps[n - 1]);
    let only_modifiers = str_equal(last_lower.as_str(), "control") || str_equal(
        last_lower.as_str(),
        "ctrl",
    ) || str_equal(last_lower.as_str(), "win") || str_equal(last_lower.as_str(), "meta")
        || str_equal(last_lower.as_str(), "shift") || str_equal(last_lower.as_str(), "alt");
    let upto = if only_modifiers {
        n
    } else {
        n - 1
    };
    let mut ctrl = false;
    let mut win = false;
    let mut shift = false;
    let mut alt = false;
    let mut i: usize = 0;
    while i < upto
        invariant
            upto <= n == parts@.len(),
            ps == views(parts@),
            i <= upto,
            ctrl == names_modifier(ps, i as int, |l: Seq<char>| is_ctrl_name(l)),
            win == names_modifier(ps, i as int, |l: Seq<char>| is_win_name(l)),
            shift == names_modifier(ps, i as int, |l: Seq<char>| is_shift_name(l)),
            alt == names_modifier(ps, i as int, |l: Seq<char>| is_alt_name(l)),
            all_ascii(ps[n - 1]) ==> unicode_lowercase(ps[n - 1]) == ascii_lower_seq(ps[n - 1]),
            forall|k: int|
                0 <= k < i && all_ascii(#[trigger] ps[k]) ==> unicode_lowercase(ps[k])
                    == ascii_lower_seq(ps[k]),
        decreases upto - i,
    {
        let part = string_from_chars(&parts[i]);
        let lower = to_lowercase(part.as_str());
        assert(part@ == ps[i as int]);
        let l = lower.as_str();
        let is_c = str_equal(l, "control") || str_equal(l, "ctrl");
        let is_w = str_equal(l, "win") || str_equal(l, "meta");
        let is_s = str_equal(l, "shift");
        let is_a = str_equal(l, "alt");
        proof {
            let c = |l: Seq<char>| is_ctrl_name(l);
            let w = |l: Seq<char>| is_win_name(l);
            let s = |l: Seq<char>| is_shift_name(l);
            let a = |l: Seq<char>| is_alt_name(l);
            assert(names_modifier(ps, i + 1, c) == (names_modifier(ps, i as int, c) || is_c)) by {
                if is_c {
                    assert(c(unicode_lowercase(ps[i as int])));
                }
                if names_modifier(ps, i + 1, c) && !names_modifier(ps, i as int, c) {
                    let k = choose|k: int| 0 <= k < i + 1 && c(unicode_lowercase(#[trigger] ps[k]));
                    assert(k == i);
                }
            }
            assert(names_modifier(ps, i + 1, w) == (names_modifier(ps, i as int, w) || is_w)) by {
                if is_w {
                    assert(w(unicode_lowercase(ps[i as int])));
                }
                if names_modifier(ps, i + 1, w) && !names_modifier(ps, i as int, w) {
                    let k = choose|k: int| 0 <= k < i + 1 && w(unicode_lowercase(#[trigger] ps[k]));
                    assert(k == i);
                }
            }
            assert(names_modifier(ps, i + 1, s) == (names_modifier(ps, i as int, s) || is_s)) by {
                if is_s {
                    assert(s(unicode_lowercase(ps[i as int])));
                }
                if names_modifier(ps, i + 1, s) && !names_modifier(ps, i as int, s) {
                    let k = choose|k: int| 0 <= k < i + 1 && s(unicode_lowercase(#[trigger] ps[k]));
                    assert(k == i);
                }
            }
            assert(names_modifier(ps, i + 1, a) == (names_modifier(ps, i as int, a) || is_a)) by {
                if is_a {
                    assert(a(unicode_lowercase(ps[i as int])));
                }
                if names_modifier(ps, i + 1, a) && !names_modifier(ps, i as int, a) {
                    let k = choose|k: int| 0 <= k < i + 1 && a(unicode_lowercase(#[trigger] ps[k]));
                    assert(k == i);
                }
            }
        }
        ctrl = ctrl || is_c;
        win = win || is_w;
        shift = shift || is_s;
        alt = alt || is_a;
        i = i + 1;
    }
    if only_modifiers {
        ParsedHotkey { has_base_key: false, base_vk: 0, ctrl, win, shift, alt }
    } else {
        let vk = get_cancel_vk(last.as_str());
        ParsedHotkey { has_base_key: true, base_vk: vk, ctrl, win, shift, alt }
    }
}

/// Which modifier keys are held down.
#[derive(Debug, Clone, Copy, PartialEq, Eq, Structural)]
pub struct ModifierState {
    pub ctrl: bool,
    pub win: bool,
    pub shift: bool,
    pub alt: bool,
}

/// The held modifiers are exactly those the hotkey asks for.
pub open spec fn modifiers_match(held: ModifierState, p: ParsedHotkey) -> bool {
    held.ctrl == p.ctrl && held.win == p.win && held.shift == p.shift && held.alt == p.alt
}

/// Whether a key event completes the hotkey `target`.
pub open spec fn match_hotkey_state_spec(
    target: Seq<char>,
    pressed_vk: u32,
    is_modifier: bool,
    held: ModifierState,
) -> bool {
    let p = parse_hotkey_spec(target);
    if p.has_base_key {
        !is_modifier && pressed_vk == p.base_vk && modifiers_match(held, p)
    } else {
        is_modifier && modifiers_match(held, p)
    }
}

/// Whether the key event `pressed_vk` (a modifier key or not) completes the
/// hotkey `target`, given the modifiers held after that event.
pub fn match_hotkey_state(
    target: &str,
    pressed_vk: u32,
    is_modifier: bool,
    held: ModifierState,
) -> (r: bool)
    ensures
        r == match_hotkey_state_spec(target@, pressed_vk, is_modifier, held),
{
    let p = parse_hotkey(target);
    let mods_match = held.ctrl == p.ctrl && held.win == p.win && held.shift == p.shift && held.alt
        == p.alt;
    if p.has_base_key {
        !is_modifier && pressed_vk == p.base_vk && mods_match
    } else {
        is_modifier && mods_match
    }
}

/// Left or right Control.
pub open spec fn is_ctrl_vk(vk: u32) -> bool {
    vk == 0xA2 || vk == 0xA3
}

/// Left or right Shift.
pub open spec fn is_shift_vk(vk: u32) -> bool {
    vk == 0xA0 || vk == 0xA1
}

/// Left or right Alt.
pub open spec fn is_alt_vk(vk: u32) -> bool {
    vk == 0xA4 || vk == 0xA5
}

/// Left or right Windows key.
pub open spec fn is_win_vk(vk: u32) -> bool {
    vk == 0x5B || vk == 0x5C
}

/// Any of the tracked modifier keys.
pub open spec fn is_modifier_vk(vk: u32) -> bool {
    is_ctrl_vk(vk) || is_shift_vk(vk) || is_alt_vk(vk) || is_win_vk(vk)
}

/// Whether the hotkey `target` is still held after the key event `vk`.
pub open spec fn is_hotkey_held_spec(
    target: Seq<char>,
    vk: u32,
    is_modifier: bool,
    is_up: bool,
    held: ModifierState,
) -> bool {
    let p = parse_hotkey_spec(target);
    if is_up && p.has_base_key && !is_modifier && vk == p.base_vk {
        false
    } else if is_up && ((p.ctrl && is_ctrl_vk(vk)) || (p.win && is_win_vk(vk)) || (p.shift
        && is_shift_vk(vk)) || (p.alt && is_alt_vk(vk))) {
        false
    } else {
        modifiers_match(held, p)
    }
}

/// Whether the hotkey `target` is still held after the key event `vk`:
/// releasing its base key or one of its modifiers lets it go, and otherwise
/// it is held while exactly its modifiers are down.
pub fn is_hotkey_held(
    target: &str,
    vk: u32,
    is_modifier: bool,
    is_up: bool,
    held: ModifierState,
) -> (r: bool)
    ensures
        r == is_hotkey_held_spec(target@, vk, is_modifier, is_up, held),
{
    let p = parse_hotkey(target);
    if is_up {
        if p.has_base_key && !is_modifier && vk == p.base_vk {
            return false;
        }
        let ctrl_released = vk == 0xA2 || vk == 0xA3;
        let win_released = vk == 0x5B || vk == 0x5C;
        let shift_released = vk == 0xA0 || vk == 0xA1;
        let alt_released = vk == 0xA4 || vk == 0xA5;
        if (p.ctrl && ctrl_released) || (p.win && win_released) || (p.shift && shift_released) || (
        p.alt && alt_released) {
            return false;
        }
    }
    held.ctrl == p.ctrl && held.win == p.win && held.shift == p.shift && held.alt == p.alt
}

/// The kind of keyboard message the hook received.
#[derive(Debug, Clone, Copy, PartialEq, Eq, Structural)]
pub enum KeyTransition {
    /// `WM_KEYDOWN` or `WM_SYSKEYDOWN`.
    Down,
    /// `WM_KEYUP` or `WM_SYSKEYUP`.
    Up,
    /// Any other message.
    Other,
}

/// What the hook remembers between key events.
#[derive(Debug, Clone, Copy, PartialEq, Eq, Structural)]
pub struct HookState {
    pub held: ModifierState,
    pub active: Option<RecordingType>,
}

impl HookState {
    /// No modifier held, no recording active.
    pub fn new() -> (s: HookState)
        ensures
            s == (HookState {
                held: ModifierState { ctrl: false, win: false, shift: false, alt: false },
                active: None,
            }),
    {
        HookState {
            held: ModifierState { ctrl: false, win: false, shift: false, alt: false },
            active: None,
        }
    }
}

/// The event was synthesised (`LLKHF_INJECTED` or `LLKHF_LOWER_IL_INJECTED`).
pub open spec fn is_injected(flags: u32) -> bool {
    (flags & 0x10u32) != 0 || (flags & 0x02u32) != 0
}

/// The modifiers held after a key event.
pub open spec fn held_after(held: ModifierState, vk: u32, transition: KeyTransition) -> ModifierState {
    if is_modifier_vk(vk) && transition != KeyTransition::Other {
        let down = transition == KeyTransition::Down;
        ModifierState {
            ctrl: if is_ctrl_vk(vk) { down } else { held.ctrl },
            win: if is_win_vk(vk) { down } else { held.win },
            shift: if is_shift_vk(vk) { down } else { held.shift },
            alt: if is_alt_vk(vk) { down } else { held.alt },
        }
    } else {
        held
    }
}

/// The modifiers held after a key event.
pub fn update_held(held: ModifierState, vk: u32, transition: KeyTransition) -> (r: ModifierState)
    ensures
        r == held_after(held, vk, transition),
{
    let is_ctrl = vk == 0xA2 || vk == 0xA3;
    let is_shift = vk == 0xA0 || vk == 0xA1;
    let is_alt = vk == 0xA4 || vk == 0xA5;
    let is_win = vk == 0x5B || vk == 0x5C;
    let mut r = held;
    if is_ctrl || is_shift || is_alt || is_win {
        let down = match transition {
            KeyTransition::Down => true,
            KeyTransition::Up => false,
            KeyTransition::Other => {
                return held;
            },
        };
        if is_ctrl {
            r.ctrl = down;
        }
        if is_shift {
            r.shift = down;
        }
        if is_alt {
            r.alt = down;
        }
        if is_win {
            r.win = down;
        }
    }
    r
}

/// The description bound to a kind of recording.
pub open spec fn binding_for(b: HotkeyBindings, t: RecordingType) -> Seq<char> {
    match t {
        RecordingType::Transcribe => b.transcribe@,
        RecordingType::Notes => b.notes@,
    }
}

/// One step of the keyboard hook: the state after a key event and the
/// events it reports, in order.
pub open spec fn key_step(
    state: HookState,
    b: HotkeyBindings,
    vk: u32,
    flags: u32,
    transition: KeyTransition,
) -> (HookState, Seq<HotkeyEvent>) {
    if is_injected(flags) {
        (state, Seq::empty())
    } else {
        let is_mod = is_modifier_vk(vk);
        let is_down = transition == KeyTransition::Down;
        let is_up = transition == KeyTransition::Up;
        let held = held_after(state.held, vk, transition);
        if is_down && match_hotkey_state_spec(b.cancel@, vk, is_mod, held) {
            match state.active {
                Some(t) => (
                    HookState { held, active: None },
                    seq![HotkeyEvent::GlobalCancel, HotkeyEvent::Cancelled(t)],
                ),
                None => (HookState { held, active: None }, seq![HotkeyEvent::GlobalCancel]),
            }
        } else if is_down && match_hotkey_state_spec(b.notes@, vk, is_mod, held) {
            match state.active {
                None => (
                    HookState { held, active: Some(RecordingType::Notes) },
                    seq![HotkeyEvent::Pressed(RecordingType::Notes)],
                ),
                Some(RecordingType::Transcribe) => (
                    HookState { held, active: Some(RecordingType::Notes) },
                    seq![
                        HotkeyEvent::Cancelled(RecordingType::Transcribe),
                        HotkeyEvent::Pressed(RecordingType::Notes),
                    ],
                ),
                Some(RecordingType::Notes) => (HookState { held, active: state.active }, Seq::empty()),
            }
        } else if is_down && match_hotkey_state_spec(b.transcribe@, vk, is_mod, held) {
            match state.active {
                None => (
                    HookState { held, active: Some(RecordingType::Transcribe) },
                    seq![HotkeyEvent::Pressed(RecordingType::Transcribe)],
                ),
                Some(RecordingType::Notes) => (
                    HookState { held, active: Some(RecordingType::Transcribe) },
                    seq![
                        HotkeyEvent::Cancelled(RecordingType::Notes),
                        HotkeyEvent::Pressed(RecordingType::Transcribe),
                    ],
                ),
                Some(RecordingType::Transcribe) => (
                    HookState { held, active: state.active },
                    Seq::empty(),
                ),
            }
        } else {
            match state.active {
                Some(t) => if !is_hotkey_held_spec(binding_for(b, t), vk, is_mod, is_up, held) {
                    (HookState { held, active: None }, seq![HotkeyEvent::Released(t)])
                } else {
                    (HookState { held, active: state.active }, Seq::empty())
                },
                None => (HookState { held, active: None }, Seq::empty()),
            }
        }
    }
}

/// Decides what one key event means: updates the held modifiers and the
/// active recording in `state` and returns the events to report, in order.
/// Synthesised key events are ignored. The cancel hotkey is checked first,
/// then the notes hotkey, then the transcribe hotkey; any other event
/// releases the active recording once its hotkey is no longer held.
pub fn handle_key_event(
    state: &mut HookState,
    bindings: &HotkeyBindings,
    vk: u32,
    flags: u32,
    transition: KeyTransition,
) -> (events: Vec<HotkeyEvent>)
    ensures
        (*final(state), events@) == key_step(*old(state), *bindings, vk, flags, transition),
{
    let mut events: Vec<HotkeyEvent> = Vec::new();
    if (flags & 0x10) != 0 || (flags & 0x02) != 0 {
        return events;
    }
    let is_ctrl = vk == 0xA2 || vk == 0xA3;
    let is_shift = vk == 0xA0 || vk == 0xA1;
    let is_alt = vk == 0xA4 || vk == 0xA5;
    let is_win = vk == 0x5B || vk == 0x5C;
    let is_modifier = is_ctrl || is_shift || is_alt || is_win;
    let is_down = match transition {
        KeyTransition::Down => true,
        _ => false,
    };
    let is_up = match transition {
        KeyTransition::Up => true,
        _ => false,
    };
    state.held = update_held(state.held, vk, transition);
    let held = state.held;
    let matches_cancel = match_hotkey_state(bindings.cancel.as_str(), vk, is_modifier, held)
        && is_down;
    if matches_cancel {
        events.push(HotkeyEvent::GlobalCancel);
        match state.active {
            Some(t) => {
                events.push(HotkeyEvent::Cancelled(t));
            },
            None => {},
        }
        state.active = None;
        return events;
    }
    let matches_notes = match_hotkey_state(bindings.notes.as_str(), vk, is_modifier, held)
        && is_down;
    let matches_transcribe = match_hotkey_state(
        bindings.transcribe.as_str(),
        vk,
        is_modifier,
        held,
    ) && is_down;
    if matches_notes {
        match state.active {
            None => {
                state.active = Some(RecordingType::Notes);
                events.push(HotkeyEvent::Pressed(RecordingType::Notes));
            },
            Some(RecordingType::Transcribe) => {
                events.push(HotkeyEvent::Cancelled(RecordingType::Transcribe));
                events.push(HotkeyEvent::Pressed(RecordingType::Notes));
                state.active = Some(RecordingType::Notes);
            },
            Some(RecordingType::Notes) => {},
        }
    } else if matches_transcribe {
        match state.active {
            None => {
                state.active = Some(RecordingType::Transcribe);
                events.push(HotkeyEvent::Pressed(RecordingType::Transcribe));
            },
            Some(RecordingType::Notes) => {
                events.push(HotkeyEvent::Cancelled(RecordingType::Notes));
                events.push(HotkeyEvent::Pressed(RecordingType::Transcribe));
                state.active = Some(RecordingType::Transcribe);
            },
            Some(RecordingType::Transcribe) => {},
        }
    } else {
        match state.active {
            Some(rec_type) => {
                let target = match rec_type {
                    RecordingType::Transcribe => bindings.transcribe.as_str(),
                    RecordingType::Notes => bindings.notes.as_str(),
                };
                if !is_hotkey_held(target, vk, is_modifier, is_up, held) {
                    events.push(HotkeyEvent::Released(rec_type));
                    state.active = None;
                }
            },
            None => {},
        }
    }
    assert(events@ == key_step(*old(state), *bindings, vk, flags, transition).1);
    events
}


/// Replays reported events against the active recording: a press starts a
/// recording when none is active, a release or cancellation ends the
/// recording of its own kind, and a global cancel changes nothing.
/// `None` when some event does not fit.
pub open spec fn replay_events(active: Option<RecordingType>, events: Seq<HotkeyEvent>) -> Option<
    Option<RecordingType>,
>
    decreases events.len(),
{
    if events.len() == 0 {
        Some(active)
    } else {
        let next = match events[0] {
            HotkeyEvent::Pressed(t) => if active is None {
                Some(Some(t))
            } else {
                None
            },
            HotkeyEvent::Released(t) => if active == Some(t) {
                Some(None::<RecordingType>)
            } else {
                None
            },
            HotkeyEvent::Cancelled(t) => if active == Some(t) {
                Some(None::<RecordingType>)
            } else {
                None
            },
            HotkeyEvent::GlobalCancel => Some(active),
        };
        match next {
            Some(a) => replay_events(a, events.drop_first()),
            None => None,
        }
    }
}

/// One raw key event as the hook receives it.
#[derive(Debug, Clone, Copy, PartialEq, Eq, Structural)]
pub struct KeyInput {
    pub vk: u32,
    pub flags: u32,
    pub transition: KeyTransition,
}

/// The hook run over a sequence of key events: the final state and all
/// events reported, in order.
pub open spec fn run_keys(state: HookState, b: HotkeyBindings, inputs: Seq<KeyInput>) -> (
    HookState,
    Seq<HotkeyEvent>,
)
    decreases inputs.len(),
{
    if inputs.len() == 0 {
        (state, Seq::empty())
    } else {
        let (s1, e1) = key_step(state, b, inputs[0].vk, inputs[0].flags, inputs[0].transition);
        let (s2, e2) = run_keys(s1, b, inputs.drop_first());
        (s2, e1 + e2)
    }
}

/// Replaying two streams one after the other is replaying their
/// concatenation.
pub proof fn lemma_replay_concat(a: Option<RecordingType>, e1: Seq<HotkeyEvent>, e2: Seq<HotkeyEvent>)
    ensures
        replay_events(a, e1 + e2) == match replay_events(a, e1) {
            Some(b) => replay_events(b, e2),
            None => None,
        },
    decreases e1.len(),
{
    if e1.len() == 0 {
        assert(e1 + e2 =~= e2);
    } else {
        assert((e1 + e2).drop_first() =~= e1.drop_first() + e2);
        assert((e1 + e2)[0] == e1[0]);
        let next = match e1[0] {
            HotkeyEvent::Pressed(t) => if a is None {
                Some(Some(t))
            } else {
                None
            },
            HotkeyEvent::Released(t) => if a == Some(t) {
                Some(None::<RecordingType>)
            } else {
                None
            },
            HotkeyEvent::Cancelled(t) => if a == Some(t) {
                Some(None::<RecordingType>)
            } else {
                None
            },
            HotkeyEvent::GlobalCancel => Some(a),
        };
        match next {
            Some(b) => lemma_replay_concat(b, e1.drop_first(), e2),
            None => {},
        }
    }
}

/// Each key event reports a well-formed piece of the recording protocol:
/// replayed against the recording that was active before the event, the
/// reported events fit and leave the recording active afterwards.
pub proof fn lemma_key_step_events_fit(
    state: HookState,
    b: HotkeyBindings,
    vk: u32,
    flags: u32,
    transition: KeyTransition,
)
    ensures
        replay_events(state.active, key_step(state, b, vk, flags, transition).1) == Some(
            key_step(state, b, vk, flags, transition).0.active,
        ),
{
    reveal_with_fuel(replay_events, 3);
}

/// Over any sequence of key events, the reported stream is well formed: no
/// recording is pressed while another is active, every release or
/// cancellation ends the recording of its own kind that the stream started
/// (or that was active at the start), and replaying the stream yields the
/// recording active at the end.
pub proof fn lemma_event_stream_well_formed(state: HookState, b: HotkeyBindings, inputs: Seq<KeyInput>)
    ensures
        replay_events(state.active, run_keys(state, b, inputs).1) == Some(
            run_keys(state, b, inputs).0.active,
        ),
    decreases inputs.len(),
{
    if inputs.len() > 0 {
        let (s1, e1) = key_step(state, b, inputs[0].vk, inputs[0].flags, inputs[0].transition);
        lemma_key_step_events_fit(state, b, inputs[0].vk, inputs[0].flags, inputs[0].transition);
        lemma_event_stream_well_formed(s1, b, inputs.drop_first());
        lemma_replay_concat(state.active, e1, run_keys(s1, b, inputs.drop_first()).1);
    }
}

/// Synthesised key events (such as the ones the text injector sends) leave
/// the hook untouched and report nothing.
pub proof fn lemma_injected_ignored(
    state: HookState,
    b: HotkeyBindings,
    vk: u32,
    flags: u32,
    transition: KeyTransition,
)
    requires
        is_injected(flags),
    ensures
        key_step(state, b, vk, flags, transition) == (state, Seq::<HotkeyEvent>::empty()),
{
}

/// The hook tracks the modifier keys: after a real press of a modifier key
/// that modifier counts as held, after its release it does not, and the
/// other modifiers keep their state.
pub proof fn lemma_modifier_tracking(
    state: HookState,
    b: HotkeyBindings,
    vk: u32,
    flags: u32,
    transition: KeyTransition,
)
    requires
        !is_injected(flags),
        transition != KeyTransition::Other,
    ensures
        ({
            let held = key_step(state, b, vk, flags, transition).0.held;
            let down = transition == KeyTransition::Down;
            &&& held.ctrl == (if is_ctrl_vk(vk) { down } else { state.held.ctrl })
            &&& held.shift == (if is_shift_vk(vk) { down } else { state.held.shift })
            &&& held.alt == (if is_alt_vk(vk) { down } else { state.held.alt })
            &&& held.win == (if is_win_vk(vk) { down } else { state.held.win })
        }),
{
}

/// A press of the cancel hotkey always reports a global cancel first, also
/// reports the cancellation of the active recording if there is one, and
/// leaves no recording active.
pub proof fn lemma_cancel_ends_recording(
    state: HookState,
    b: HotkeyBindings,
    vk: u32,
    flags: u32,
)
    requires
        !is_injected(flags),
        match_hotkey_state_spec(
            b.cancel@,
            vk,
            is_modifier_vk(vk),
            held_after(state.held, vk, KeyTransition::Down),
        ),
    ensures
        ({
            let (s, e) = key_step(state, b, vk, flags, KeyTransition::Down);
            &&& s.active is None
            &&& e[0] == HotkeyEvent::GlobalCancel
            &&& e.len() == if state.active is Some { 2int } else { 1int }
            &&& state.active matches Some(t) ==> e[1] == HotkeyEvent::Cancelled(t)
        }),
{
}

/// The keys a hotkey consists of: its base key, if it has one, and the
/// modifier keys it asks for.
pub open spec fn is_key_of_hotkey(target: Seq<char>, vk: u32) -> bool {
    let p = parse_hotkey_spec(target);
    ||| p.has_base_key && !is_modifier_vk(vk) && vk == p.base_vk
    ||| p.ctrl && is_ctrl_vk(vk)
    ||| p.win && is_win_vk(vk)
    ||| p.shift && is_shift_vk(vk)
    ||| p.alt && is_alt_vk(vk)
}

/// Pressing a hotkey while nothing records starts its recording and reports
/// the press, unless the key event also completes the cancel hotkey (or,
/// for dictation, the notes hotkey, which takes precedence).
pub proof fn lemma_press_starts_recording(
    state: HookState,
    b: HotkeyBindings,
    t: RecordingType,
    vk: u32,
    flags: u32,
)
    requires
        !is_injected(flags),
        state.active is None,
        match_hotkey_state_spec(
            binding_for(b, t),
            vk,
            is_modifier_vk(vk),
            held_after(state.held, vk, KeyTransition::Down),
        ),
        !match_hotkey_state_spec(
            b.cancel@,
            vk,
            is_modifier_vk(vk),
            held_after(state.held, vk, KeyTransition::Down),
        ),
        t == RecordingType::Transcribe ==> !match_hotkey_state_spec(
            b.notes@,
            vk,
            is_modifier_vk(vk),
            held_after(state.held, vk, KeyTransition::Down),
        ),
    ensures
        key_step(state, b, vk, flags, KeyTransition::Down) == (
            HookState { held: held_after(state.held, vk, KeyTransition::Down), active: Some(t) },
            seq![HotkeyEvent::Pressed(t)],
        ),
{
}

/// Push to talk: letting go of any key of the hotkey that drives the active
/// recording ends it and reports the release.
pub proof fn lemma_release_ends_recording(
    state: HookState,
    b: HotkeyBindings,
    t: RecordingType,
    vk: u32,
    flags: u32,
)
    requires
        !is_injected(flags),
        state.active == Some(t),
        is_key_of_hotkey(binding_for(b, t), vk),
    ensures
        key_step(state, b, vk, flags, KeyTransition::Up) == (
            HookState { held: held_after(state.held, vk, KeyTransition::Up), active: None },
            seq![HotkeyEvent::Released(t)],
        ),
{
}

/// The events of a stream that start and end recordings: all but the
/// global cancels, in order.
pub open spec fn recording_events(e: Seq<HotkeyEvent>) -> Seq<HotkeyEvent>
    decreases e.len(),
{
    if e.len() == 0 {
        Seq::empty()
    } else if e[0] == HotkeyEvent::GlobalCancel {
        recording_events(e.drop_first())
    } else {
        seq![e[0]] + recording_events(e.drop_first())
    }
}

/// The recording active after a run of recording events that started with
/// `active`: the kind of the last event when it is a press, none after a
/// release or cancellation.
pub open spec fn active_after(active: Option<RecordingType>, f: Seq<HotkeyEvent>) -> Option<
    RecordingType,
> {
    if f.len() == 0 {
        active
    } else {
        match f.last() {
            HotkeyEvent::Pressed(t) => Some(t),
            _ => None,
        }
    }
}

/// The alternation at position `i` of a run of recording events that
/// started with `active`: a press neither follows a press nor comes first
/// while a recording is active, and a release or cancellation of a kind
/// directly follows the press of that kind (or comes first while that kind
/// records).
pub open spec fn alternates_at(active: Option<RecordingType>, f: Seq<HotkeyEvent>, i: int) -> bool {
    let prev = if i == 0 {
        active
    } else {
        match f[i - 1] {
            HotkeyEvent::Pressed(t) => Some(t),
            _ => None,
        }
    };
    &&& f[i] != HotkeyEvent::GlobalCancel
    &&& (f[i] is Pressed ==> prev is None)
    &&& (f[i] matches HotkeyEvent::Released(t) ==> prev == Some(t))
    &&& (f[i] matches HotkeyEvent::Cancelled(t) ==> prev == Some(t))
}

/// Presses and ends alternate all along a run of recording events.
pub open spec fn alternating(active: Option<RecordingType>, f: Seq<HotkeyEvent>) -> bool {
    forall|i: int| 0 <= i < f.len() ==> #[trigger] alternates_at(active, f, i)
}

/// Whether an event fits the recording active before it.
pub open spec fn event_fits(active: Option<RecordingType>, e: HotkeyEvent) -> bool {
    match e {
        HotkeyEvent::Pressed(_) => active is None,
        HotkeyEvent::Released(t) => active == Some(t),
        HotkeyEvent::Cancelled(t) => active == Some(t),
        HotkeyEvent::GlobalCancel => true,
    }
}

/// The recording active after an event that fits.
pub open spec fn active_after_event(active: Option<RecordingType>, e: HotkeyEvent) -> Option<
    RecordingType,
> {
    match e {
        HotkeyEvent::Pressed(t) => Some(t),
        HotkeyEvent::GlobalCancel => active,
        _ => None,
    }
}

proof fn lemma_replay_step(a: Option<RecordingType>, f: Seq<HotkeyEvent>)
    requires
        f.len() > 0,
    ensures
        replay_events(a, f) == if event_fits(a, f[0]) {
            replay_events(active_after_event(a, f[0]), f.drop_first())
        } else {
            None
        },
{
}

proof fn lemma_replay_recording_events(a: Option<RecordingType>, e: Seq<HotkeyEvent>)
    ensures
        replay_events(a, recording_events(e)) == replay_events(a, e),
    decreases e.len(),
{
    if e.len() > 0 {
        let rest = e.drop_first();
        if e[0] == HotkeyEvent::GlobalCancel {
            lemma_replay_recording_events(a, rest);
        } else {
            let f = seq![e[0]] + recording_events(rest);
            assert(f[0] == e[0]);
            assert(f.drop_first() =~= recording_events(rest));
            let next = match e[0] {
                HotkeyEvent::Pressed(t) => if a is None {
                    Some(Some(t))
                } else {
                    None
                },
                HotkeyEvent::Released(t) => if a == Some(t) {
                    Some(None::<RecordingType>)
                } else {
                    None
                },
                HotkeyEvent::Cancelled(t) => if a == Some(t) {
                    Some(None::<RecordingType>)
                } else {
                    None
                },
                HotkeyEvent::GlobalCancel => Some(a),
            };
            match next {
                Some(b) => lemma_replay_recording_events(b, rest),
                None => {},
            }
        }
    }
}

proof fn lemma_valid_replay_alternates(a: Option<RecordingType>, f: Seq<HotkeyEvent>)
    requires
        replay_events(a, f) is Some,
        forall|i: int| 0 <= i < f.len() ==> #[trigger] f[i] != HotkeyEvent::GlobalCancel,
    ensures
        alternating(a, f),
        replay_events(a, f) == Some(active_after(a, f)),
    decreases f.len(),
{
    if f.len() > 0 {
        let rest = f.drop_first();
        lemma_replay_step(a, f);
        assert(f[0] != HotkeyEvent::GlobalCancel);
        assert(event_fits(a, f[0]));
        let next = active_after_event(a, f[0]);
        assert forall|i: int| 0 <= i < rest.len() implies #[trigger] rest[i]
            != HotkeyEvent::GlobalCancel by {
            assert(rest[i] == f[i + 1]);
        }
        lemma_valid_replay_alternates(next, rest);
        assert(alternates_at(a, f, 0));
        assert forall|i: int| 0 < i < f.len() implies #[trigger] alternates_at(a, f, i) by {
            assert(alternates_at(next, rest, i - 1));
            assert(f[i] == rest[i - 1]);
            if i > 1 {
                assert(f[i - 1] == rest[i - 2]);
            }
        }
        if rest.len() > 0 {
            assert(f.last() == rest.last());
        }
    }
}

/// From no active recording, a stream that replays fits the alternation.
proof fn lemma_alternation_from_replay(e: Seq<HotkeyEvent>, end: Option<RecordingType>)
    requires
        replay_events(None, e) == Some(end),
    ensures
        alternating(None, recording_events(e)),
        end == active_after(None, recording_events(e)),
{
    lemma_replay_recording_events(None, e);
    lemma_no_global_cancel(e);
    lemma_valid_replay_alternates(None, recording_events(e));
}

/// From a hook with no recording active, over any sequence of key events,
/// the presses and the releases or cancellations reported alternate: every
/// release or cancellation of a kind directly follows the press of that
/// kind, no press follows a press, and the recording active at the end is
/// the kind of the last of these events when it is a press (none
/// otherwise).
pub proof fn lemma_recording_events_alternate(
    state: HookState,
    b: HotkeyBindings,
    inputs: Seq<KeyInput>,
)
    requires
        state.active is None,
    ensures
        alternating(None, recording_events(run_keys(state, b, inputs).1)),
        run_keys(state, b, inputs).0.active == active_after(
            None,
            recording_events(run_keys(state, b, inputs).1),
        ),
{
    lemma_event_stream_well_formed(state, b, inputs);
    lemma_alternation_from_replay(run_keys(state, b, inputs).1, run_keys(state, b, inputs).0.active);
}

proof fn lemma_no_global_cancel(e: Seq<HotkeyEvent>)
    ensures
        forall|i: int|
            0 <= i < recording_events(e).len() ==> #[trigger] recording_events(e)[i]
                != HotkeyEvent::GlobalCancel,
    decreases e.len(),
{
    if e.len() > 0 {
        lemma_no_global_cancel(e.drop_first());
        if e[0] != HotkeyEvent::GlobalCancel {
            let r = recording_events(e.drop_first());
            assert forall|i: int| 0 <= i < recording_events(e).len() implies #[trigger] recording_events(e)[i]
                != HotkeyEvent::GlobalCancel by {
                if i > 0 {
                    assert(recording_events(e)[i] == r[i - 1]);
                }
            }
        }
    }
}

proof fn lemma_named_key_0()
    ensures
        named_key_vk("escape"@) == Some(0x1Bu32),
{
    reveal_strlit("escape");
}

proof fn lemma_named_key_1()
    ensures
        named_key_vk("esc"@) == Some(0x1Bu32),
{
    reveal_strlit("esc");
    reveal_strlit("escape");
    assert("esc"@.len() != "escape"@.len());
}

proof fn lemma_named_key_2()
    ensures
        named_key_vk("backquote"@) == Some(0xC0u32),
{
    reveal_strlit("backquote");
    reveal_strlit("escape");
    reveal_strlit("esc");
    assert("backquote"@.len() != "escape"@.len());
    assert("backquote"@.len() != "esc"@.len());
}

proof fn lemma_named_key_3()
    ensures
        named_key_vk("`"@) == Some(0xC0u32),
{
    reveal_strlit("`");
    reveal_strlit("escape");
    reveal_strlit("esc");
    reveal_strlit("backquote");
    assert("`"@.len() != "escape"@.len());
    assert("`"@.len() != "esc"@.len());
    assert("`"@.len() != "backquote"@.len());
}

proof fn lemma_named_key_4()
    ensures
        named_key_vk("~"@) == Some(0xC0u32),
{
    reveal_strlit("~");
    reveal_strlit("escape");
    reveal_strlit("esc");
    reveal_strlit("backquote");
    reveal_strlit("`");
    assert("~"@.len() != "escape"@.len());
    assert("~"@.len() != "esc"@.len());
    assert("~"@.len() != "backquote"@.len());
    assert("~"@[0] != "`"@[0]);
}

proof fn lemma_named_key_5()
    ensures
        named_key_vk("f1"@) == Some(0x70u32),
{
    reveal_strlit("f1");
    reveal_strlit("escape");
    reveal_strlit("esc");
    reveal_strlit("backquote");
    reveal_strlit("`");
    reveal_strlit("~");
    assert("f1"@.len() != "escape"@.len());
    assert("f1"@.len() != "esc"@.len());
    assert("f1"@.len() != "backquote"@.len());
    assert("f1"@.len() != "`"@.len());
    assert("f1"@.len() != "~"@.len());
}

proof fn lemma_named_key_6()
    ensures
        named_key_vk("f2"@) == Some(0x71u32),
{
    reveal_strlit("f2");
    reveal_strlit("escape");
    reveal_strlit("esc");
    reveal_strlit("backquote");
    reveal_strlit("`");
    reveal_strlit("~");
    reveal_strlit("f1");
    assert("f2"@.len() != "escape"@.len());
    assert("f2"@.len() != "esc"@.len());
    assert("f2"@.len() != "backquote"@.len());
    assert("f2"@.len() != "`"@.len());
    assert("f2"@.len() != "~"@.len());
    assert("f2"@[1] != "f1"@[1]);
}

proof fn lemma_named_key_7()
    ensures
        named_key_vk("f3"@) == Some(0x72u32),
{
    reveal_strlit("f3");
    reveal_strlit("escape");
    reveal_strlit("esc");
    reveal_strlit("backquote");
    reveal_strlit("`");
    reveal_strlit("~");
    reveal_strlit("f1");
    reveal_strlit("f2");
    assert("f3"@.len() != "escape"@.len());
    assert("f3"@.len() != "esc"@.len());
    assert("f3"@.len() != "backquote"@.len());
    assert("f3"@.len() != "`"@.len());
    assert("f3"@.len() != "~"@.len());
    assert("f3"@[1] != "f1"@[1]);
    assert("f3"@[1] != "f2"@[1]);
}

proof fn lemma_named_key_8()
    ensures
        named_key_vk("f4"@) == Some(0x73u32),
{
    reveal_strlit("f4");
    reveal_strlit("escape");
    reveal_strlit("esc");
    reveal_strlit("backquote");
    reveal_strlit("`");
    reveal_strlit("~");
    reveal_strlit("f1");
    reveal_strlit("f2");
    reveal_strlit("f3");
    assert("f4"@.len() != "escape"@.len());
    assert("f4"@.len() != "esc"@.len());
    assert("f4"@.len() != "backquote"@.len());
    assert("f4"@.len() != "`"@.len());
    assert("f4"@.len() != "~"@.len());
    assert("f4"@[1] != "f1"@[1]);
    assert("f4"@[1] != "f2"@[1]);
    assert("f4"@[1] != "f3"@[1]);
}

proof fn lemma_named_key_9()
    ensures
        named_key_vk("f5"@) == Some(0x74u32),
{
    reveal_strlit("f5");
    reveal_strlit("escape");
    reveal_strlit("esc");
    reveal_strlit("backquote");
    reveal_strlit("`");
    reveal_strlit("~");
    reveal_strlit("f1");
    reveal_strlit("f2");
    reveal_strlit("f3");
    reveal_strlit("f4");
    assert("f5"@.len() != "escape"@.len());
    assert("f5"@.len() != "esc"@.len());
    assert("f5"@.len() != "backquote"@.len());
    assert("f5"@.len() != "`"@.len());
    assert("f5"@.len() != "~"@.len());
    assert("f5"@[1] != "f1"@[1]);
    assert("f5"@[1] != "f2"@[1]);
    assert("f5"@[1] != "f3"@[1]);
    assert("f5"@[1] != "f4"@[1]);
}

proof fn lemma_named_key_10()
    ensures
        named_key_vk("f6"@) == Some(0x75u32),
{
    reveal_strlit("f6");
    reveal_strlit("escape");
    reveal_strlit("esc");
    reveal_strlit("backquote");
    reveal_strlit("`");
    reveal_strlit("~");
    reveal_strlit("f1");
    reveal_strlit("f2");
    reveal_strlit("f3");
    reveal_strlit("f4");
    reveal_strlit("f5");
    assert("f6"@.len() != "escape"@.len());
    assert("f6"@.len() != "esc"@.len());
    assert("f6"@.len() != "backquote"@.len());
    assert("f6"@.len() != "`"@.len());
    assert("f6"@.len() != "~"@.len());
    assert("f6"@[1] != "f1"@[1]);
    assert("f6"@[1] != "f2"@[1]);
    assert("f6"@[1] != "f3"@[1]);
    assert("f6"@[1] != "f4"@[1]);
    assert("f6"@[1] != "f5"@[1]);
}

proof fn lemma_named_key_11()
    ensures
        named_key_vk("f7"@) == Some(0x76u32),
{
    reveal_strlit("f7");
    reveal_strlit("escape");
    reveal_strlit("esc");
    reveal_strlit("backquote");
    reveal_strlit("`");
    reveal_strlit("~");
    reveal_strlit("f1");
    reveal_strlit("f2");
    reveal_strlit("f3");
    reveal_strlit("f4");
    reveal_strlit("f5");
    reveal_strlit("f6");
    assert("f7"@.len() != "escape"@.len());
    assert("f7"@.len() != "esc"@.len());
    assert("f7"@.len() != "backquote"@.len());
    assert("f7"@.len() != "`"@.len());
    assert("f7"@.len() != "~"@.len());
    assert("f7"@[1] != "f1"@[1]);
    assert("f7"@[1] != "f2"@[1]);
    assert("f7"@[1] != "f3"@[1]);
    assert("f7"@[1] != "f4"@[1]);
    assert("f7"@[1] != "f5"@[1]);
    assert("f7"@[1] != "f6"@[1]);
}

proof fn lemma_named_key_12()
    ensures
        named_key_vk("f8"@) == Some(0x77u32),
{
    reveal_strlit("f8");
    reveal_strlit("escape");
    reveal_strlit("esc");
    reveal_strlit("backquote");
    reveal_strlit("`");
    reveal_strlit("~");
    reveal_strlit("f1");
    reveal_strlit("f2");
    reveal_strlit("f3");
    reveal_strlit("f4");
    reveal_strlit("f5");
    reveal_strlit("f6");
    reveal_strlit("f7");
    assert("f8"@.len() != "escape"@.len());
    assert("f8"@.len() != "esc"@.len());
    assert("f8"@.len() != "backquote"@.len());
    assert("f8"@.len() != "`"@.len());
    assert("f8"@.len() != "~"@.len());
    assert("f8"@[1] != "f1"@[1]);
    assert("f8"@[1] != "f2"@[1]);
    assert("f8"@[1] != "f3"@[1]);
    assert("f8"@[1] != "f4"@[1]);
    assert("f8"@[1] != "f5"@[1]);
    assert("f8"@[1] != "f6"@[1]);
    assert("f8"@[1] != "f7"@[1]);
}

proof fn lemma_named_key_13()
    ensures
        named_key_vk("f9"@) == Some(0x78u32),
{
    reveal_strlit("f9");
    reveal_strlit("escape");
    reveal_strlit("esc");
    reveal_strlit("backquote");
    reveal_strlit("`");
    reveal_strlit("~");
    reveal_strlit("f1");
    reveal_strlit("f2");
    reveal_strlit("f3");
    reveal_strlit("f4");
    reveal_strlit("f5");
    reveal_strlit("f6");
    reveal_strlit("f7");
    reveal_strlit("f8");
    assert("f9"@.len() != "escape"@.len());
    assert("f9"@.len() != "esc"@.len());
    assert("f9"@.len() != "backquote"@.len());
    assert("f9"@.len() != "`"@.len());
    assert("f9"@.len() != "~"@.len());
    assert("f9"@[1] != "f1"@[1]);
    assert("f9"@[1] != "f2"@[1]);
    assert("f9"@[1] != "f3"@[1]);
    assert("f9"@[1] != "f4"@[1]);
    assert("f9"@[1] != "f5"@[1]);
    assert("f9"@[1] != "f6"@[1]);
    assert("f9"@[1] != "f7"@[1]);
    assert("f9"@[1] != "f8"@[1]);
}

proof fn lemma_named_key_14()
    ensures
        named_key_vk("f10"@) == Some(0x79u32),
{
    reveal_strlit("f10");
    reveal_strlit("escape");
    reveal_strlit("esc");
    reveal_strlit("backquote");
    reveal_strlit("`");
    reveal_strlit("~");
    reveal_strlit("f1");
    reveal_strlit("f2");
    reveal_strlit("f3");
    reveal_strlit("f4");
    reveal_strlit("f5");
    reveal_strlit("f6");
    reveal_strlit("f7");
    reveal_strlit("f8");
    reveal_strlit("f9");
    assert("f10"@.len() != "escape"@.len());
    assert("f10"@[0] != "esc"@[0]);
    assert("f10"@.len() != "backquote"@.len());
    assert("f10"@.len() != "`"@.len());
    assert("f10"@.len() != "~"@.len());
    assert("f10"@.len() != "f1"@.len());
    assert("f10"@.len() != "f2"@.len());
    assert("f10"@.len() != "f3"@.len());
    assert("f10"@.len() != "f4"@.len());
    assert("f10"@.len() != "f5"@.len());
    assert("f10"@.len() != "f6"@.len());
    assert("f10"@.len() != "f7"@.len());
    assert("f10"@.len() != "f8"@.len());
    assert("f10"@.len() != "f9"@.len());
}

proof fn lemma_named_key_15()
    ensures
        named_key_vk("f11"@) == Some(0x7Au32),
{
    reveal_strlit("f11");
    reveal_strlit("escape");
    reveal_strlit("esc");
    reveal_strlit("backquote");
    reveal_strlit("`");
    reveal_strlit("~");
    reveal_strlit("f1");
    reveal_strlit("f2");
    reveal_strlit("f3");
    reveal_strlit("f4");
    reveal_strlit("f5");
    reveal_strlit("f6");
    reveal_strlit("f7");
    reveal_strlit("f8");
    reveal_strlit("f9");
    reveal_strlit("f10");
    assert("f11"@.len() != "escape"@.len());
    assert("f11"@[0] != "esc"@[0]);
    assert("f11"@.len() != "backquote"@.len());
    assert("f11"@.len() != "`"@.len());
    assert("f11"@.len() != "~"@.len());
    assert("f11"@.len() != "f1"@.len());
    assert("f11"@.len() != "f2"@.len());
    assert("f11"@.len() != "f3"@.len());
    assert("f11"@.len() != "f4"@.len());
    assert("f11"@.len() != "f5"@.len());
    assert("f11"@.len() != "f6"@.len());
    assert("f11"@.len() != "f7"@.len());
    assert("f11"@.len() != "f8"@.len());
    assert("f11"@.len() != "f9"@.len());
    assert("f11"@[2] != "f10"@[2]);
}

proof fn lemma_named_key_16()
    ensures
        named_key_vk("f12"@) == Some(0x7Bu32),
{
    reveal_strlit("f12");
    reveal_strlit("escape");
    reveal_strlit("esc");
    reveal_strlit("backquote");
    reveal_strlit("`");
    reveal_strlit("~");
    reveal_strlit("f1");
    reveal_strlit("f2");
    reveal_strlit("f3");
    reveal_strlit("f4");
    reveal_strlit("f5");
    reveal_strlit("f6");
    reveal_strlit("f7");
    reveal_strlit("f8");
    reveal_strlit("f9");
    reveal_strlit("f10");
    reveal_strlit("f11");
    assert("f12"@.len() != "escape"@.len());
    assert("f12"@[0] != "esc"@[0]);
    assert("f12"@.len() != "backquote"@.len());
    assert("f12"@.len() != "`"@.len());
    assert("f12"@.len() != "~"@.len());
    assert("f12"@.len() != "f1"@.len());
    assert("f12"@.len() != "f2"@.len());
    assert("f12"@.len() != "f3"@.len());
    assert("f12"@.len() != "f4"@.len());
    assert("f12"@.len() != "f5"@.len());
    assert("f12"@.len() != "f6"@.len());
    assert("f12"@.len() != "f7"@.len());
    assert("f12"@.len() != "f8"@.len());
    assert("f12"@.len() != "f9"@.len());
    assert("f12"@[2] != "f10"@[2]);
    assert("f12"@[2] != "f11"@[2]);
}

proof fn lemma_named_key_17()
    ensures
        named_key_vk("scrolllock"@) == Some(0x91u32),
{
    reveal_strlit("scrolllock");
    reveal_strlit("escape");
    reveal_strlit("esc");
    reveal_strlit("backquote");
    reveal_strlit("`");
    reveal_strlit("~");
    reveal_strlit("f1");
    reveal_strlit("f2");
    reveal_strlit("f3");
    reveal_strlit("f4");
    reveal_strlit("f5");
    reveal_strlit("f6");
    reveal_strlit("f7");
    reveal_strlit("f8");
    reveal_strlit("f9");
    reveal_strlit("f10");
    reveal_strlit("f11");
    reveal_strlit("f12");
    assert("scrolllock"@.len() != "escape"@.len());
    assert("scrolllock"@.len() != "esc"@.len());
    assert("scrolllock"@.len() != "backquote"@.len());
    assert("scrolllock"@.len() != "`"@.len());
    assert("scrolllock"@.len() != "~"@.len());
    assert("scrolllock"@.len() != "f1"@.len());
    assert("scrolllock"@.len() != "f2"@.len());
    assert("scrolllock"@.len() != "f3"@.len());
    assert("scrolllock"@.len() != "f4"@.len());
    assert("scrolllock"@.len() != "f5"@.len());
    assert("scrolllock"@.len() != "f6"@.len());
    assert("scrolllock"@.len() != "f7"@.len());
    assert("scrolllock"@.len() != "f8"@.len());
    assert("scrolllock"@.len() != "f9"@.len());
    assert("scrolllock"@.len() != "f10"@.len());
    assert("scrolllock"@.len() != "f11"@.len());
    assert("scrolllock"@.len() != "f12"@.len());
}

proof fn lemma_named_key_18()
    ensures
        named_key_vk("scroll lock"@) == Some(0x91u32),
{
    reveal_strlit("scroll lock");
    reveal_strlit("escape");
    reveal_strlit("esc");
    reveal_strlit("backquote");
    reveal_strlit("`");
    reveal_strlit("~");
    reveal_strlit("f1");
    reveal_strlit("f2");
    reveal_strlit("f3");
    reveal_strlit("f4");
    reveal_strlit("f5");
    reveal_strlit("f6");
    reveal_strlit("f7");
    reveal_strlit("f8");
    reveal_strlit("f9");
    reveal_strlit("f10");
    reveal_strlit("f11");
    reveal_strlit("f12");
    reveal_strlit("scrolllock");
    assert("scroll lock"@.len() != "escape"@.len());
    assert("scroll lock"@.len() != "esc"@.len());
    assert("scroll lock"@.len() != "backquote"@.len());
    assert("scroll lock"@.len() != "`"@.len());
    assert("scroll lock"@.len() != "~"@.len());
    assert("scroll lock"@.len() != "f1"@.len());
    assert("scroll lock"@.len() != "f2"@.len());
    assert("scroll lock"@.len() != "f3"@.len());
    assert("scroll lock"@.len() != "f4"@.len());
    assert("scroll lock"@.len() != "f5"@.len());
    assert("scroll lock"@.len() != "f6"@.len());
    assert("scroll lock"@.len() != "f7"@.len());
    assert("scroll lock"@.len() != "f8"@.len());
    assert("scroll lock"@.len() != "f9"@.len());
    assert("scroll lock"@.len() != "f10"@.len());
    assert("scroll lock"@.len() != "f11"@.len());
    assert("scroll lock"@.len() != "f12"@.len());
    assert("scroll lock"@.len() != "scrolllock"@.len());
}

proof fn lemma_named_key_19()
    ensures
        named_key_vk("space"@) == Some(0x20u32),
{
    reveal_strlit("space");
    reveal_strlit("escape");
    reveal_strlit("esc");
    reveal_strlit("backquote");
    reveal_strlit("`");
    reveal_strlit("~");
    reveal_strlit("f1");
    reveal_strlit("f2");
    reveal_strlit("f3");
    reveal_strlit("f4");
    reveal_strlit("f5");
    reveal_strlit("f6");
    reveal_strlit("f7");
    reveal_strlit("f8");
    reveal_strlit("f9");
    reveal_strlit("f10");
    reveal_strlit("f11");
    reveal_strlit("f12");
    reveal_strlit("scrolllock");
    reveal_strlit("scroll lock");
    assert("space"@.len() != "escape"@.len());
    assert("space"@.len() != "esc"@.len());
    assert("space"@.len() != "backquote"@.len());
    assert("space"@.len() != "`"@.len());
    assert("space"@.len() != "~"@.len());
    assert("space"@.len() != "f1"@.len());
    assert("space"@.len() != "f2"@.len());
    assert("space"@.len() != "f3"@.len());
    assert("space"@.len() != "f4"@.len());
    assert("space"@.len() != "f5"@.len());
    assert("space"@.len() != "f6"@.len());
    assert("space"@.len() != "f7"@.len());
    assert("space"@.len() != "f8"@.len());
    assert("space"@.len() != "f9"@.len());
    assert("space"@.len() != "f10"@.len());
    assert("space"@.len() != "f11"@.len());
    assert("space"@.len() != "f12"@.len());
    assert("space"@.len() != "scrolllock"@.len());
    assert("space"@.len() != "scroll lock"@.len());
}

proof fn lemma_named_key_20()
    ensures
        named_key_vk("tab"@) == Some(0x09u32),
{
    reveal_strlit("tab");
    reveal_strlit("escape");
    reveal_strlit("esc");
    reveal_strlit("backquote");
    reveal_strlit("`");
    reveal_strlit("~");
    reveal_strlit("f1");
    reveal_strlit("f2");
    reveal_strlit("f3");
    reveal_strlit("f4");
    reveal_strlit("f5");
    reveal_strlit("f6");
    reveal_strlit("f7");
    reveal_strlit("f8");
    reveal_strlit("f9");
    reveal_strlit("f10");
    reveal_strlit("f11");
    reveal_strlit("f12");
    reveal_strlit("scrolllock");
    reveal_strlit("scroll lock");
    reveal_strlit("space");
    assert("tab"@.len() != "escape"@.len());
    assert("tab"@[0] != "esc"@[0]);
    assert("tab"@.len() != "backquote"@.len());
    assert("tab"@.len() != "`"@.len());
    assert("tab"@.len() != "~"@.len());
    assert("tab"@.len() != "f1"@.len());
    assert("tab"@.len() != "f2"@.len());
    assert("tab"@.len() != "f3"@.len());
    assert("tab"@.len() != "f4"@.len());
    assert("tab"@.len() != "f5"@.len());
    assert("tab"@.len() != "f6"@.len());
    assert("tab"@.len() != "f7"@.len());
    assert("tab"@.len() != "f8"@.len());
    assert("tab"@.len() != "f9"@.len());
    assert("tab"@[0] != "f10"@[0]);
    assert("tab"@[0] != "f11"@[0]);
    assert("tab"@[0] != "f12"@[0]);
    assert("tab"@.len() != "scrolllock"@.len());
    assert("tab"@.len() != "scroll lock"@.len());
    assert("tab"@.len() != "space"@.len());
}

proof fn lemma_named_key_21()
    ensures
        named_key_vk("backspace"@) == Some(0x08u32),
{
    reveal_strlit("backspace");
    reveal_strlit("escape");
    reveal_strlit("esc");
    reveal_strlit("backquote");
    reveal_strlit("`");
    reveal_strlit("~");
    reveal_strlit("f1");
    reveal_strlit("f2");
    reveal_strlit("f3");
    reveal_strlit("f4");
    reveal_strlit("f5");
    reveal_strlit("f6");
    reveal_strlit("f7");
    reveal_strlit("f8");
    reveal_strlit("f9");
    reveal_strlit("f10");
    reveal_strlit("f11");
    reveal_strlit("f12");
    reveal_strlit("scrolllock");
    reveal_strlit("scroll lock");
    reveal_strlit("space");
    reveal_strlit("tab");
    assert("backspace"@.len() != "escape"@.len());
    assert("backspace"@.len() != "esc"@.len());
    assert("backspace"@[4] != "backquote"@[4]);
    assert("backspace"@.len() != "`"@.len());
    assert("backspace"@.len() != "~"@.len());
    assert("backspace"@.len() != "f1"@.len());
    assert("backspace"@.len() != "f2"@.len());
    assert("backspace"@.len() != "f3"@.len());
    assert("backspace"@.len() != "f4"@.len());
    assert("backspace"@.len() != "f5"@.len());
    assert("backspace"@.len() != "f6"@.len());
    assert("backspace"@.len() != "f7"@.len());
    assert("backspace"@.len() != "f8"@.len());
    assert("backspace"@.len() != "f9"@.len());
    assert("backspace"@.len() != "f10"@.len());
    assert("backspace"@.len() != "f11"@.len());
    assert("backspace"@.len() != "f12"@.len());
    assert("backspace"@.len() != "scrolllock"@.len());
    assert("backspace"@.len() != "scroll lock"@.len());
    assert("backspace"@.len() != "space"@.len());
    assert("backspace"@.len() != "tab"@.len());
}

proof fn lemma_named_key_22()
    ensures
        named_key_vk("enter"@) == Some(0x0Du32),
{
    reveal_strlit("enter");
    reveal_strlit("escape");
    reveal_strlit("esc");
    reveal_strlit("backquote");
    reveal_strlit("`");
    reveal_strlit("~");
    reveal_strlit("f1");
    reveal_strlit("f2");
    reveal_strlit("f3");
    reveal_strlit("f4");
    reveal_strlit("f5");
    reveal_strlit("f6");
    reveal_strlit("f7");
    reveal_strlit("f8");
    reveal_strlit("f9");
    reveal_strlit("f10");
    reveal_strlit("f11");
    reveal_strlit("f12");
    reveal_strlit("scrolllock");
    reveal_strlit("scroll lock");
    reveal_strlit("space");
    reveal_strlit("tab");
    reveal_strlit("backspace");
    assert("enter"@.len() != "escape"@.len());
    assert("enter"@.len() != "esc"@.len());
    assert("enter"@.len() != "backquote"@.len());
    assert("enter"@.len() != "`"@.len());
    assert("enter"@.len() != "~"@.len());
    assert("enter"@.len() != "f1"@.len());
    assert("enter"@.len() != "f2"@.len());
    assert("enter"@.len() != "f3"@.len());
    assert("enter"@.len() != "f4"@.len());
    assert("enter"@.len() != "f5"@.len());
    assert("enter"@.len() != "f6"@.len());
    assert("enter"@.len() != "f7"@.len());
    assert("enter"@.len() != "f8"@.len());
    assert("enter"@.len() != "f9"@.len());
    assert("enter"@.len() != "f10"@.len());
    assert("enter"@.len() != "f11"@.len());
    assert("enter"@.len() != "f12"@.len());
    assert("enter"@.len() != "scrolllock"@.len());
    assert("enter"@.len() != "scroll lock"@.len());
    assert("enter"@[0] != "space"@[0]);
    assert("enter"@.len() != "tab"@.len());
    assert("enter"@.len() != "backspace"@.len());
}

proof fn lemma_named_key_23()
    ensures
        named_key_vk("return"@) == Some(0x0Du32),
{
    reveal_strlit("return");
    reveal_strlit("escape");
    reveal_strlit("esc");
    reveal_strlit("backquote");
    reveal_strlit("`");
    reveal_strlit("~");
    reveal_strlit("f1");
    reveal_strlit("f2");
    reveal_strlit("f3");
    reveal_strlit("f4");
    reveal_strlit("f5");
    reveal_strlit("f6");
    reveal_strlit("f7");
    reveal_strlit("f8");
    reveal_strlit("f9");
    reveal_strlit("f10");
    reveal_strlit("f11");
    reveal_strlit("f12");
    reveal_strlit("scrolllock");
    reveal_strlit("scroll lock");
    reveal_strlit("space");
    reveal_strlit("tab");
    reveal_strlit("backspace");
    reveal_strlit("enter");
    assert("return"@[0] != "escape"@[0]);
    assert("return"@.len() != "esc"@.len());
    assert("return"@.len() != "backquote"@.len());
    assert("return"@.len() != "`"@.len());
    assert("return"@.len() != "~"@.len());
    assert("return"@.len() != "f1"@.len());
    assert("return"@.len() != "f2"@.len());
    assert("return"@.len() != "f3"@.len());
    assert("return"@.len() != "f4"@.len());
    assert("return"@.len() != "f5"@.len());
    assert("return"@.len() != "f6"@.len());
    assert("return"@.len() != "f7"@.len());
    assert("return"@.len() != "f8"@.len());
    assert("return"@.len() != "f9"@.len());
    assert("return"@.len() != "f10"@.len());
    assert("return"@.len() != "f11"@.len());
    assert("return"@.len() != "f12"@.len());
    assert("return"@.len() != "scrolllock"@.len());
    assert("return"@.len() != "scroll lock"@.len());
    assert("return"@.len() != "space"@.len());
    assert("return"@.len() != "tab"@.len());
    assert("return"@.len() != "backspace"@.len());
    assert("return"@.len() != "enter"@.len());
}

proof fn lemma_named_key_24()
    ensures
        named_key_vk("delete"@) == Some(0x2Eu32),
{
    reveal_strlit("delete");
    reveal_strlit("escape");
    reveal_strlit("esc");
    reveal_strlit("backquote");
    reveal_strlit("`");
    reveal_strlit("~");
    reveal_strlit("f1");
    reveal_strlit("f2");
    reveal_strlit("f3");
    reveal_strlit("f4");
    reveal_strlit("f5");
    reveal_strlit("f6");
    reveal_strlit("f7");
    reveal_strlit("f8");
    reveal_strlit("f9");
    reveal_strlit("f10");
    reveal_strlit("f11");
    reveal_strlit("f12");
    reveal_strlit("scrolllock");
    reveal_strlit("scroll lock");
    reveal_strlit("space");
    reveal_strlit("tab");
    reveal_strlit("backspace");
    reveal_strlit("enter");
    reveal_strlit("return");
    assert("delete"@[0] != "escape"@[0]);
    assert("delete"@.len() != "esc"@.len());
    assert("delete"@.len() != "backquote"@.len());
    assert("delete"@.len() != "`"@.len());
    assert("delete"@.len() != "~"@.len());
    assert("delete"@.len() != "f1"@.len());
    assert("delete"@.len() != "f2"@.len());
    assert("delete"@.len() != "f3"@.len());
    assert("delete"@.len() != "f4"@.len());
    assert("delete"@.len() != "f5"@.len());
    assert("delete"@.len() != "f6"@.len());
    assert("delete"@.len() != "f7"@.len());
    assert("delete"@.len() != "f8"@.len());
    assert("delete"@.len() != "f9"@.len());
    assert("delete"@.len() != "f10"@.len());
    assert("delete"@.len() != "f11"@.len());
    assert("delete"@.len() != "f12"@.len());
    assert("delete"@.len() != "scrolllock"@.len());
    assert("delete"@.len() != "scroll lock"@.len());
    assert("delete"@.len() != "space"@.len());
    assert("delete"@.len() != "tab"@.len());
    assert("delete"@.len() != "backspace"@.len());
    assert("delete"@.len() != "enter"@.len());
    assert("delete"@[0] != "return"@[0]);
}

proof fn lemma_named_key_25()
    ensures
        named_key_vk("del"@) == Some(0x2Eu32),
{
    reveal_strlit("del");
    reveal_strlit("escape");
    reveal_strlit("esc");
    reveal_strlit("backquote");
    reveal_strlit("`");
    reveal_strlit("~");
    reveal_strlit("f1");
    reveal_strlit("f2");
    reveal_strlit("f3");
    reveal_strlit("f4");
    reveal_strlit("f5");
    reveal_strlit("f6");
    reveal_strlit("f7");
    reveal_strlit("f8");
    reveal_strlit("f9");
    reveal_strlit("f10");
    reveal_strlit("f11");
    reveal_strlit("f12");
    reveal_strlit("scrolllock");
    reveal_strlit("scroll lock");
    reveal_strlit("space");
    reveal_strlit("tab");
    reveal_strlit("backspace");
    reveal_strlit("enter");
    reveal_strlit("return");
    reveal_strlit("delete");
    assert("del"@.len() != "escape"@.len());
    assert("del"@[0] != "esc"@[0]);
    assert("del"@.len() != "backquote"@.len());
    assert("del"@.len() != "`"@.len());
    assert("del"@.len() != "~"@.len());
    assert("del"@.len() != "f1"@.len());
    assert("del"@.len() != "f2"@.len());
    assert("del"@.len() != "f3"@.len());
    assert("del"@.len() != "f4"@.len());
    assert("del"@.len() != "f5"@.len());
    assert("del"@.len() != "f6"@.len());
    assert("del"@.len() != "f7"@.len());
    assert("del"@.len() != "f8"@.len());
    assert("del"@.len() != "f9"@.len());
    assert("del"@[0] != "f10"@[0]);
    assert("del"@[0] != "f11"@[0]);
    assert("del"@[0] != "f12"@[0]);
    assert("del"@.len() != "scrolllock"@.len());
    assert("del"@.len() != "scroll lock"@.len());
    assert("del"@.len() != "space"@.len());
    assert("del"@[0] != "tab"@[0]);
    assert("del"@.len() != "backspace"@.len());
    assert("del"@.len() != "enter"@.len());
    assert("del"@.len() != "return"@.len());
    assert("del"@.len() != "delete"@.len());
}

proof fn lemma_named_key_26()
    ensures
        named_key_vk("insert"@) == Some(0x2Du32),
{
    reveal_strlit("insert");
    reveal_strlit("escape");
    reveal_strlit("esc");
    reveal_strlit("backquote");
    reveal_strlit("`");
    reveal_strlit("~");
    reveal_strlit("f1");
    reveal_strlit("f2");
    reveal_strlit("f3");
    reveal_strlit("f4");
    reveal_strlit("f5");
    reveal_strlit("f6");
    reveal_strlit("f7");
    reveal_strlit("f8");
    reveal_strlit("f9");
    reveal_strlit("f10");
    reveal_strlit("f11");
    reveal_strlit("f12");
    reveal_strlit("scrolllock");
    reveal_strlit("scroll lock");
    reveal_strlit("space");
    reveal_strlit("tab");
    reveal_strlit("backspace");
    reveal_strlit("enter");
    reveal_strlit("return");
    reveal_strlit("delete");
    reveal_strlit("del");
    assert("insert"@[0] != "escape"@[0]);
    assert("insert"@.len() != "esc"@.len());
    assert("insert"@.len() != "backquote"@.len());
    assert("insert"@.len() != "`"@.len());
    assert("insert"@.len() != "~"@.len());
    assert("insert"@.len() != "f1"@.len());
    assert("insert"@.len() != "f2"@.len());
    assert("insert"@.len() != "f3"@.len());
    assert("insert"@.len() != "f4"@.len());
    assert("insert"@.len() != "f5"@.len());
    assert("insert"@.len() != "f6"@.len());
    assert("insert"@.len() != "f7"@.len());
    assert("insert"@.len() != "f8"@.len());
    assert("insert"@.len() != "f9"@.len());
    assert("insert"@.len() != "f10"@.len());
    assert("insert"@.len() != "f11"@.len());
    assert("insert"@.len() != "f12"@.len());
    assert("insert"@.len() != "scrolllock"@.len());
    assert("insert"@.len() != "scroll lock"@.len());
    assert("insert"@.len() != "space"@.len());
    assert("insert"@.len() != "tab"@.len());
    assert("insert"@.len() != "backspace"@.len());
    assert("insert"@.len() != "enter"@.len());
    assert("insert"@[0] != "return"@[0]);
    assert("insert"@[0] != "delete"@[0]);
    assert("insert"@.len() != "del"@.len());
}

proof fn lemma_named_key_27()
    ensures
        named_key_vk("ins"@) == Some(0x2Du32),
{
    reveal_strlit("ins");
    reveal_strlit("escape");
    reveal_strlit("esc");
    reveal_strlit("backquote");
    reveal_strlit("`");
    reveal_strlit("~");
    reveal_strlit("f1");
    reveal_strlit("f2");
    reveal_strlit("f3");
    reveal_strlit("f4");
    reveal_strlit("f5");
    reveal_strlit("f6");
    reveal_strlit("f7");
    reveal_strlit("f8");
    reveal_strlit("f9");
    reveal_strlit("f10");
    reveal_strlit("f11");
    reveal_strlit("f12");
    reveal_strlit("scrolllock");
    reveal_strlit("scroll lock");
    reveal_strlit("space");
    reveal_strlit("tab");
    reveal_strlit("backspace");
    reveal_strlit("enter");
    reveal_strlit("return");
    reveal_strlit("delete");
    reveal_strlit("del");
    reveal_strlit("insert");
    assert("ins"@.len() != "escape"@.len());
    assert("ins"@[0] != "esc"@[0]);
    assert("ins"@.len() != "backquote"@.len());
    assert("ins"@.len() != "`"@.len());
    assert("ins"@.len() != "~"@.len());
    assert("ins"@.len() != "f1"@.len());
    assert("ins"@.len() != "f2"@.len());
    assert("ins"@.len() != "f3"@.len());
    assert("ins"@.len() != "f4"@.len());
    assert("ins"@.len() != "f5"@.len());
    assert("ins"@.len() != "f6"@.len());
    assert("ins"@.len() != "f7"@.len());
    assert("ins"@.len() != "f8"@.len());
    assert("ins"@.len() != "f9"@.len());
    assert("ins"@[0] != "f10"@[0]);
    assert("ins"@[0] != "f11"@[0]);
    assert("ins"@[0] != "f12"@[0]);
    assert("ins"@.len() != "scrolllock"@.len());
    assert("ins"@.len() != "scroll lock"@.len());
    assert("ins"@.len() != "space"@.len());
    assert("ins"@[0] != "tab"@[0]);
    assert("ins"@.len() != "backspace"@.len());
    assert("ins"@.len() != "enter"@.len());
    assert("ins"@.len() != "return"@.len());
    assert("ins"@.len() != "delete"@.len());
    assert("ins"@[0] != "del"@[0]);
    assert("ins"@.len() != "insert"@.len());
}

proof fn lemma_named_key_28()
    ensures
        named_key_vk("home"@) == Some(0x24u32),
{
    reveal_strlit("home");
    reveal_strlit("escape");
    reveal_strlit("esc");
    reveal_strlit("backquote");
    reveal_strlit("`");
    reveal_strlit("~");
    reveal_strlit("f1");
    reveal_strlit("f2");
    reveal_strlit("f3");
    reveal_strlit("f4");
    reveal_strlit("f5");
    reveal_strlit("f6");
    reveal_strlit("f7");
    reveal_strlit("f8");
    reveal_strlit("f9");
    reveal_strlit("f10");
    reveal_strlit("f11");
    reveal_strlit("f12");
    reveal_strlit("scrolllock");
    reveal_strlit("scroll lock");
    reveal_strlit("space");
    reveal_strlit("tab");
    reveal_strlit("backspace");
    reveal_strlit("enter");
    reveal_strlit("return");
    reveal_strlit("delete");
    reveal_strlit("del");
    reveal_strlit("insert");
    reveal_strlit("ins");
    assert("home"@.len() != "escape"@.len());
    assert("home"@.len() != "esc"@.len());
    assert("home"@.len() != "backquote"@.len());
    assert("home"@.len() != "`"@.len());
    assert("home"@.len() != "~"@.len());
    assert("home"@.len() != "f1"@.len());
    assert("home"@.len() != "f2"@.len());
    assert("home"@.len() != "f3"@.len());
    assert("home"@.len() != "f4"@.len());
    assert("home"@.len() != "f5"@.len());
    assert("home"@.len() != "f6"@.len());
    assert("home"@.len() != "f7"@.len());
    assert("home"@.len() != "f8"@.len());
    assert("home"@.len() != "f9"@.len());
    assert("home"@.len() != "f10"@.len());
    assert("home"@.len() != "f11"@.len());
    assert("home"@.len() != "f12"@.len());
    assert("home"@.len() != "scrolllock"@.len());
    assert("home"@.len() != "scroll lock"@.len());
    assert("home"@.len() != "space"@.len());
    assert("home"@.len() != "tab"@.len());
    assert("home"@.len() != "backspace"@.len());
    assert("home"@.len() != "enter"@.len());
    assert("home"@.len() != "return"@.len());
    assert("home"@.len() != "delete"@.len());
    assert("home"@.len() != "del"@.len());
    assert("home"@.len() != "insert"@.len());
    assert("home"@.len() != "ins"@.len());
}

proof fn lemma_named_key_29()
    ensures
        named_key_vk("end"@) == Some(0x23u32),
{
    reveal_strlit("end");
    reveal_strlit("escape");
    reveal_strlit("esc");
    reveal_strlit("backquote");
    reveal_strlit("`");
    reveal_strlit("~");
    reveal_strlit("f1");
    reveal_strlit("f2");
    reveal_strlit("f3");
    reveal_strlit("f4");
    reveal_strlit("f5");
    reveal_strlit("f6");
    reveal_strlit("f7");
    reveal_strlit("f8");
    reveal_strlit("f9");
    reveal_strlit("f10");
    reveal_strlit("f11");
    reveal_strlit("f12");
    reveal_strlit("scrolllock");
    reveal_strlit("scroll lock");
    reveal_strlit("space");
    reveal_strlit("tab");
    reveal_strlit("backspace");
    reveal_strlit("enter");
    reveal_strlit("return");
    reveal_strlit("delete");
    reveal_strlit("del");
    reveal_strlit("insert");
    reveal_strlit("ins");
    reveal_strlit("home");
    assert("end"@.len() != "escape"@.len());
    assert("end"@[1] != "esc"@[1]);
    assert("end"@.len() != "backquote"@.len());
    assert("end"@.len() != "`"@.len());
    assert("end"@.len() != "~"@.len());
    assert("end"@.len() != "f1"@.len());
    assert("end"@.len() != "f2"@.len());
    assert("end"@.len() != "f3"@.len());
    assert("end"@.len() != "f4"@.len());
    assert("end"@.len() != "f5"@.len());
    assert("end"@.len() != "f6"@.len());
    assert("end"@.len() != "f7"@.len());
    assert("end"@.len() != "f8"@.len());
    assert("end"@.len() != "f9"@.len());
    assert("end"@[0] != "f10"@[0]);
    assert("end"@[0] != "f11"@[0]);
    assert("end"@[0] != "f12"@[0]);
    assert("end"@.len() != "scrolllock"@.len());
    assert("end"@.len() != "scroll lock"@.len());
    assert("end"@.len() != "space"@.len());
    assert("end"@[0] != "tab"@[0]);
    assert("end"@.len() != "backspace"@.len());
    assert("end"@.len() != "enter"@.len());
    assert("end"@.len() != "return"@.len());
    assert("end"@.len() != "delete"@.len());
    assert("end"@[0] != "del"@[0]);
    assert("end"@.len() != "insert"@.len());
    assert("end"@[0] != "ins"@[0]);
    assert("end"@.len() != "home"@.len());
}

proof fn lemma_named_key_30()
    ensures
        named_key_vk("pageup"@) == Some(0x21u32),
{
    reveal_strlit("pageup");
    reveal_strlit("escape");
    reveal_strlit("esc");
    reveal_strlit("backquote");
    reveal_strlit("`");
    reveal_strlit("~");
    reveal_strlit("f1");
    reveal_strlit("f2");
    reveal_strlit("f3");
    reveal_strlit("f4");
    reveal_strlit("f5");
    reveal_strlit("f6");
    reveal_strlit("f7");
    reveal_strlit("f8");
    reveal_strlit("f9");
    reveal_strlit("f10");
    reveal_strlit("f11");
    reveal_strlit("f12");
    reveal_strlit("scrolllock");
    reveal_strlit("scroll lock");
    reveal_strlit("space");
    reveal_strlit("tab");
    reveal_strlit("backspace");
    reveal_strlit("enter");
    reveal_strlit("return");
    reveal_strlit("delete");
    reveal_strlit("del");
    reveal_strlit("insert");
    reveal_strlit("ins");
    reveal_strlit("home");
    reveal_strlit("end");
    assert("pageup"@[0] != "escape"@[0]);
    assert("pageup"@.len() != "esc"@.len());
    assert("pageup"@.len() != "backquote"@.len());
    assert("pageup"@.len() != "`"@.len());
    assert("pageup"@.len() != "~"@.len());
    assert("pageup"@.len() != "f1"@.len());
    assert("pageup"@.len() != "f2"@.len());
    assert("pageup"@.len() != "f3"@.len());
    assert("pageup"@.len() != "f4"@.len());
    assert("pageup"@.len() != "f5"@.len());
    assert("pageup"@.len() != "f6"@.len());
    assert("pageup"@.len() != "f7"@.len());
    assert("pageup"@.len() != "f8"@.len());
    assert("pageup"@.len() != "f9"@.len());
    assert("pageup"@.len() != "f10"@.len());
    assert("pageup"@.len() != "f11"@.len());
    assert("pageup"@.len() != "f12"@.len());
    assert("pageup"@.len() != "scrolllock"@.len());
    assert("pageup"@.len() != "scroll lock"@.len());
    assert("pageup"@.len() != "space"@.len());
    assert("pageup"@.len() != "tab"@.len());
    assert("pageup"@.len() != "backspace"@.len());
    assert("pageup"@.len() != "enter"@.len());
    assert("pageup"@[0] != "return"@[0]);
    assert("pageup"@[0] != "delete"@[0]);
    assert("pageup"@.len() != "del"@.len());
    assert("pageup"@[0] != "insert"@[0]);
    assert("pageup"@.len() != "ins"@.len());
    assert("pageup"@.len() != "home"@.len());
    assert("pageup"@.len() != "end"@.len());
}

proof fn lemma_named_key_31()
    ensures
        named_key_vk("page up"@) == Some(0x21u32),
{
    reveal_strlit("page up");
    reveal_strlit("escape");
    reveal_strlit("esc");
    reveal_strlit("backquote");
    reveal_strlit("`");
    reveal_strlit("~");
    reveal_strlit("f1");
    reveal_strlit("f2");
    reveal_strlit("f3");
    reveal_strlit("f4");
    reveal_strlit("f5");
    reveal_strlit("f6");
    reveal_strlit("f7");
    reveal_strlit("f8");
    reveal_strlit("f9");
    reveal_strlit("f10");
    reveal_strlit("f11");
    reveal_strlit("f12");
    reveal_strlit("scrolllock");
    reveal_strlit("scroll lock");
    reveal_strlit("space");
    reveal_strlit("tab");
    reveal_strlit("backspace");
    reveal_strlit("enter");
    reveal_strlit("return");
    reveal_strlit("delete");
    reveal_strlit("del");
    reveal_strlit("insert");
    reveal_strlit("ins");
    reveal_strlit("home");
    reveal_strlit("end");
    reveal_strlit("pageup");
    assert("page up"@.len() != "escape"@.len());
    assert("page up"@.len() != "esc"@.len());
    assert("page up"@.len() != "backquote"@.len());
    assert("page up"@.len() != "`"@.len());
    assert("page up"@.len() != "~"@.len());
    assert("page up"@.len() != "f1"@.len());
    assert("page up"@.len() != "f2"@.len());
    assert("page up"@.len() != "f3"@.len());
    assert("page up"@.len() != "f4"@.len());
    assert("page up"@.len() != "f5"@.len());
    assert("page up"@.len() != "f6"@.len());
    assert("page up"@.len() != "f7"@.len());
    assert("page up"@.len() != "f8"@.len());
    assert("page up"@.len() != "f9"@.len());
    assert("page up"@.len() != "f10"@.len());
    assert("page up"@.len() != "f11"@.len());
    assert("page up"@.len() != "f12"@.len());
    assert("page up"@.len() != "scrolllock"@.len());
    assert("page up"@.len() != "scroll lock"@.len());
    assert("page up"@.len() != "space"@.len());
    assert("page up"@.len() != "tab"@.len());
    assert("page up"@.len() != "backspace"@.len());
    assert("page up"@.len() != "enter"@.len());
    assert("page up"@.len() != "return"@.len());
    assert("page up"@.len() != "delete"@.len());
    assert("page up"@.len() != "del"@.len());
    assert("page up"@.len() != "insert"@.len());
    assert("page up"@.len() != "ins"@.len());
    assert("page up"@.len() != "home"@.len());
    assert("page up"@.len() != "end"@.len());
    assert("page up"@.len() != "pageup"@.len());
}

proof fn lemma_named_key_32()
    ensures
        named_key_vk("pagedown"@) == Some(0x22u32),
{
    reveal_strlit("pagedown");
    reveal_strlit("escape");
    reveal_strlit("esc");
    reveal_strlit("backquote");
    reveal_strlit("`");
    reveal_strlit("~");
    reveal_strlit("f1");
    reveal_strlit("f2");
    reveal_strlit("f3");
    reveal_strlit("f4");
    reveal_strlit("f5");
    reveal_strlit("f6");
    reveal_strlit("f7");
    reveal_strlit("f8");
    reveal_strlit("f9");
    reveal_strlit("f10");
    reveal_strlit("f11");
    reveal_strlit("f12");
    reveal_strlit("scrolllock");
    reveal_strlit("scroll lock");
    reveal_strlit("space");
    reveal_strlit("tab");
    reveal_strlit("backspace");
    reveal_strlit("enter");
    reveal_strlit("return");
    reveal_strlit("delete");
    reveal_strlit("del");
    reveal_strlit("insert");
    reveal_strlit("ins");
    reveal_strlit("home");
    reveal_strlit("end");
    reveal_strlit("pageup");
    reveal_strlit("page up");
    assert("pagedown"@.len() != "escape"@.len());
    assert("pagedown"@.len() != "esc"@.len());
    assert("pagedown"@.len() != "backquote"@.len());
    assert("pagedown"@.len() != "`"@.len());
    assert("pagedown"@.len() != "~"@.len());
    assert("pagedown"@.len() != "f1"@.len());
    assert("pagedown"@.len() != "f2"@.len());
    assert("pagedown"@.len() != "f3"@.len());
    assert("pagedown"@.len() != "f4"@.len());
    assert("pagedown"@.len() != "f5"@.len());
    assert("pagedown"@.len() != "f6"@.len());
    assert("pagedown"@.len() != "f7"@.len());
    assert("pagedown"@.len() != "f8"@.len());
    assert("pagedown"@.len() != "f9"@.len());
    assert("pagedown"@.len() != "f10"@.len());
    assert("pagedown"@.len() != "f11"@.len());
    assert("pagedown"@.len() != "f12"@.len());
    assert("pagedown"@.len() != "scrolllock"@.len());
    assert("pagedown"@.len() != "scroll lock"@.len());
    assert("pagedown"@.len() != "space"@.len());
    assert("pagedown"@.len() != "tab"@.len());
    assert("pagedown"@.len() != "backspace"@.len());
    assert("pagedown"@.len() != "enter"@.len());
    assert("pagedown"@.len() != "return"@.len());
    assert("pagedown"@.len() != "delete"@.len());
    assert("pagedown"@.len() != "del"@.len());
    assert("pagedown"@.len() != "insert"@.len());
    assert("pagedown"@.len() != "ins"@.len());
    assert("pagedown"@.len() != "home"@.len());
    assert("pagedown"@.len() != "end"@.len());
    assert("pagedown"@.len() != "pageup"@.len());
    assert("pagedown"@.len() != "page up"@.len());
}

proof fn lemma_named_key_33()
    ensures
        named_key_vk("page down"@) == Some(0x22u32),
{
    reveal_strlit("page down");
    reveal_strlit("escape");
    reveal_strlit("esc");
    reveal_strlit("backquote");
    reveal_strlit("`");
    reveal_strlit("~");
    reveal_strlit("f1");
    reveal_strlit("f2");
    reveal_strlit("f3");
    reveal_strlit("f4");
    reveal_strlit("f5");
    reveal_strlit("f6");
    reveal_strlit("f7");
    reveal_strlit("f8");
    reveal_strlit("f9");
    reveal_strlit("f10");
    reveal_strlit("f11");
    reveal_strlit("f12");
    reveal_strlit("scrolllock");
    reveal_strlit("scroll lock");
    reveal_strlit("space");
    reveal_strlit("tab");
    reveal_strlit("backspace");
    reveal_strlit("enter");
    reveal_strlit("return");
    reveal_strlit("delete");
    reveal_strlit("del");
    reveal_strlit("insert");
    reveal_strlit("ins");
    reveal_strlit("home");
    reveal_strlit("end");
    reveal_strlit("pageup");
    reveal_strlit("page up");
    reveal_strlit("pagedown");
    assert("page down"@.len() != "escape"@.len());
    assert("page down"@.len() != "esc"@.len());
    assert("page down"@[0] != "backquote"@[0]);
    assert("page down"@.len() != "`"@.len());
    assert("page down"@.len() != "~"@.len());
    assert("page down"@.len() != "f1"@.len());
    assert("page down"@.len() != "f2"@.len());
    assert("page down"@.len() != "f3"@.len());
    assert("page down"@.len() != "f4"@.len());
    assert("page down"@.len() != "f5"@.len());
    assert("page down"@.len() != "f6"@.len());
    assert("page down"@.len() != "f7"@.len());
    assert("page down"@.len() != "f8"@.len());
    assert("page down"@.len() != "f9"@.len());
    assert("page down"@.len() != "f10"@.len());
    assert("page down"@.len() != "f11"@.len());
    assert("page down"@.len() != "f12"@.len());
    assert("page down"@.len() != "scrolllock"@.len());
    assert("page down"@.len() != "scroll lock"@.len());
    assert("page down"@.len() != "space"@.len());
    assert("page down"@.len() != "tab"@.len());
    assert("page down"@[0] != "backspace"@[0]);
    assert("page down"@.len() != "enter"@.len());
    assert("page down"@.len() != "return"@.len());
    assert("page down"@.len() != "delete"@.len());
    assert("page down"@.len() != "del"@.len());
    assert("page down"@.len() != "insert"@.len());
    assert("page down"@.len() != "ins"@.len());
    assert("page down"@.len() != "home"@.len());
    assert("page down"@.len() != "end"@.len());
    assert("page down"@.len() != "pageup"@.len());
    assert("page down"@.len() != "page up"@.len());
    assert("page down"@.len() != "pagedown"@.len());
}

/// Every named key, written in any ASCII case, gives its Windows
/// virtual-key code: `VK_ESCAPE`, `VK_OEM_3` (the backquote key), `VK_F1`
/// to `VK_F12`, `VK_SCROLL`, `VK_SPACE`, `VK_TAB`, `VK_BACK`, `VK_RETURN`,
/// `VK_DELETE`, `VK_INSERT`, `VK_HOME`, `VK_END`, `VK_PRIOR` and `VK_NEXT`
/// (so `"Space"`, `"SPACE"` and `"space"` all give 0x20).
pub proof fn lemma_named_key_codes(key: Seq<char>)
    requires
        all_ascii(key),
    ensures
        ascii_lower_seq(key) == "escape"@ ==> ascii_key_vk(key) == 0x1Bu32,
        ascii_lower_seq(key) == "esc"@ ==> ascii_key_vk(key) == 0x1Bu32,
        ascii_lower_seq(key) == "backquote"@ ==> ascii_key_vk(key) == 0xC0u32,
        ascii_lower_seq(key) == "`"@ ==> ascii_key_vk(key) == 0xC0u32,
        ascii_lower_seq(key) == "~"@ ==> ascii_key_vk(key) == 0xC0u32,
        ascii_lower_seq(key) == "f1"@ ==> ascii_key_vk(key) == 0x70u32,
        ascii_lower_seq(key) == "f2"@ ==> ascii_key_vk(key) == 0x71u32,
        ascii_lower_seq(key) == "f3"@ ==> ascii_key_vk(key) == 0x72u32,
        ascii_lower_seq(key) == "f4"@ ==> ascii_key_vk(key) == 0x73u32,
        ascii_lower_seq(key) == "f5"@ ==> ascii_key_vk(key) == 0x74u32,
        ascii_lower_seq(key) == "f6"@ ==> ascii_key_vk(key) == 0x75u32,
        ascii_lower_seq(key) == "f7"@ ==> ascii_key_vk(key) == 0x76u32,
        ascii_lower_seq(key) == "f8"@ ==> ascii_key_vk(key) == 0x77u32,
        ascii_lower_seq(key) == "f9"@ ==> ascii_key_vk(key) == 0x78u32,
        ascii_lower_seq(key) == "f10"@ ==> ascii_key_vk(key) == 0x79u32,
        ascii_lower_seq(key) == "f11"@ ==> ascii_key_vk(key) == 0x7Au32,
        ascii_lower_seq(key) == "f12"@ ==> ascii_key_vk(key) == 0x7Bu32,
        ascii_lower_seq(key) == "scrolllock"@ ==> ascii_key_vk(key) == 0x91u32,
        ascii_lower_seq(key) == "scroll lock"@ ==> ascii_key_vk(key) == 0x91u32,
        ascii_lower_seq(key) == "space"@ ==> ascii_key_vk(key) == 0x20u32,
        ascii_lower_seq(key) == "tab"@ ==> ascii_key_vk(key) == 0x09u32,
        ascii_lower_seq(key) == "backspace"@ ==> ascii_key_vk(key) == 0x08u32,
        ascii_lower_seq(key) == "enter"@ ==> ascii_key_vk(key) == 0x0Du32,
        ascii_lower_seq(key) == "return"@ ==> ascii_key_vk(key) == 0x0Du32,
        ascii_lower_seq(key) == "delete"@ ==> ascii_key_vk(key) == 0x2Eu32,
        ascii_lower_seq(key) == "del"@ ==> ascii_key_vk(key) == 0x2Eu32,
        ascii_lower_seq(key) == "insert"@ ==> ascii_key_vk(key) == 0x2Du32,
        ascii_lower_seq(key) == "ins"@ ==> ascii_key_vk(key) == 0x2Du32,
        ascii_lower_seq(key) == "home"@ ==> ascii_key_vk(key) == 0x24u32,
        ascii_lower_seq(key) == "end"@ ==> ascii_key_vk(key) == 0x23u32,
        ascii_lower_seq(key) == "pageup"@ ==> ascii_key_vk(key) == 0x21u32,
        ascii_lower_seq(key) == "page up"@ ==> ascii_key_vk(key) == 0x21u32,
        ascii_lower_seq(key) == "pagedown"@ ==> ascii_key_vk(key) == 0x22u32,
        ascii_lower_seq(key) == "page down"@ ==> ascii_key_vk(key) == 0x22u32,
{
    lemma_named_key_0();
    lemma_named_key_1();
    lemma_named_key_2();
    lemma_named_key_3();
    lemma_named_key_4();
    lemma_named_key_5();
    lemma_named_key_6();
    lemma_named_key_7();
    lemma_named_key_8();
    lemma_named_key_9();
    lemma_named_key_10();
    lemma_named_key_11();
    lemma_named_key_12();
    lemma_named_key_13();
    lemma_named_key_14();
    lemma_named_key_15();
    lemma_named_key_16();
    lemma_named_key_17();
    lemma_named_key_18();
    lemma_named_key_19();
    lemma_named_key_20();
    lemma_named_key_21();
    lemma_named_key_22();
    lemma_named_key_23();
    lemma_named_key_24();
    lemma_named_key_25();
    lemma_named_key_26();
    lemma_named_key_27();
    lemma_named_key_28();
    lemma_named_key_29();
    lemma_named_key_30();
    lemma_named_key_31();
    lemma_named_key_32();
    lemma_named_key_33();
}

proof fn lemma_single_chars_not_named(c: char)
    requires
        ('a' <= c <= 'z') || ('0' <= c <= '9'),
    ensures
        named_key_vk(seq![c]) is None,
{
    reveal_strlit("escape");
    reveal_strlit("esc");
    reveal_strlit("backquote");
    reveal_strlit("`");
    reveal_strlit("~");
    reveal_strlit("f1");
    reveal_strlit("f2");
    reveal_strlit("f3");
    reveal_strlit("f4");
    reveal_strlit("f5");
    reveal_strlit("f6");
    reveal_strlit("f7");
    reveal_strlit("f8");
    reveal_strlit("f9");
    reveal_strlit("f10");
    reveal_strlit("f11");
    reveal_strlit("f12");
    reveal_strlit("scrolllock");
    reveal_strlit("scroll lock");
    reveal_strlit("space");
    reveal_strlit("tab");
    reveal_strlit("backspace");
    reveal_strlit("enter");
    reveal_strlit("return");
    reveal_strlit("delete");
    reveal_strlit("del");
    reveal_strlit("insert");
    reveal_strlit("ins");
    reveal_strlit("home");
    reveal_strlit("end");
    reveal_strlit("pageup");
    reveal_strlit("page up");
    reveal_strlit("pagedown");
    reveal_strlit("page down");
    assert(seq![c].len() != "escape"@.len());
    assert(seq![c].len() != "esc"@.len());
    assert(seq![c].len() != "backquote"@.len());
    assert(seq![c][0] != "`"@[0]);
    assert(seq![c][0] != "~"@[0]);
    assert(seq![c].len() != "f1"@.len());
    assert(seq![c].len() != "f2"@.len());
    assert(seq![c].len() != "f3"@.len());
    assert(seq![c].len() != "f4"@.len());
    assert(seq![c].len() != "f5"@.len());
    assert(seq![c].len() != "f6"@.len());
    assert(seq![c].len() != "f7"@.len());
    assert(seq![c].len() != "f8"@.len());
    assert(seq![c].len() != "f9"@.len());
    assert(seq![c].len() != "f10"@.len());
    assert(seq![c].len() != "f11"@.len());
    assert(seq![c].len() != "f12"@.len());
    assert(seq![c].len() != "scrolllock"@.len());
    assert(seq![c].len() != "scroll lock"@.len());
    assert(seq![c].len() != "space"@.len());
    assert(seq![c].len() != "tab"@.len());
    assert(seq![c].len() != "backspace"@.len());
    assert(seq![c].len() != "enter"@.len());
    assert(seq![c].len() != "return"@.len());
    assert(seq![c].len() != "delete"@.len());
    assert(seq![c].len() != "del"@.len());
    assert(seq![c].len() != "insert"@.len());
    assert(seq![c].len() != "ins"@.len());
    assert(seq![c].len() != "home"@.len());
    assert(seq![c].len() != "end"@.len());
    assert(seq![c].len() != "pageup"@.len());
    assert(seq![c].len() != "page up"@.len());
    assert(seq![c].len() != "pagedown"@.len());
    assert(seq![c].len() != "page down"@.len());
}

/// A key given as one ASCII letter (in either case) or digit gives that
/// character's code, letters as upper case (`"c"` and `"C"` both give
/// 0x43); any other ASCII name that names no key gives Escape (0x1B).
pub proof fn lemma_single_char_codes(key: Seq<char>)
    requires
        all_ascii(key),
    ensures
        key.len() == 1 && (('a' <= key[0] <= 'z') || ('A' <= key[0] <= 'Z') || ('0' <= key[0] <= '9'))
            ==> ascii_key_vk(key) == ascii_upper(key[0]) as u32,
        named_key_vk(ascii_lower_seq(key)) is None && !(key.len() == 1 && (('a' <= key[0] <= 'z')
            || ('A' <= key[0] <= 'Z') || ('0' <= key[0] <= '9'))) ==> ascii_key_vk(key) == 0x1Bu32,
{
    if key.len() == 1 && (('a' <= key[0] <= 'z') || ('A' <= key[0] <= 'Z') || ('0' <= key[0] <= '9')) {
        let l = ascii_lower(key[0]);
        assert(ascii_lower_seq(key) =~= seq![l]);
        lemma_single_chars_not_named(l);
    }
}

/// Holding a hotkey down: a key-down that completes the hotkey of the
/// recording already active (keyboard auto-repeat while the key is held)
/// reports nothing and keeps that recording active, unless the event also
/// completes the cancel hotkey (or, during dictation, the notes hotkey).
pub proof fn lemma_repeated_press_keeps_recording(
    state: HookState,
    b: HotkeyBindings,
    t: RecordingType,
    vk: u32,
    flags: u32,
)
    requires
        !is_injected(flags),
        state.active == Some(t),
        match_hotkey_state_spec(
            binding_for(b, t),
            vk,
            is_modifier_vk(vk),
            held_after(state.held, vk, KeyTransition::Down),
        ),
        !match_hotkey_state_spec(
            b.cancel@,
            vk,
            is_modifier_vk(vk),
            held_after(state.held, vk, KeyTransition::Down),
        ),
        t == RecordingType::Transcribe ==> !match_hotkey_state_spec(
            b.notes@,
            vk,
            is_modifier_vk(vk),
            held_after(state.held, vk, KeyTransition::Down),
        ),
    ensures
        key_step(state, b, vk, flags, KeyTransition::Down) == (
            HookState { held: held_after(state.held, vk, KeyTransition::Down), active: Some(t) },
            Seq::<HotkeyEvent>::empty(),
        ),
{
}

} // verus!
