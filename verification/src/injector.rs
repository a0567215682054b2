//! Text injection: which window receives the text, and the keyboard input
//! that types or pastes it.

use vstd::prelude::*;
use crate::text::{chars_of, decimal, u64_to_string};

verus! {

/// What the injector remembers about window focus.
pub struct FocusState {
    /// The last foreground window that belonged to another process
    /// (0 when none was seen).
    pub last_active_hwnd: isize,
    /// Whether the dictation started while this application had the focus.
    pub was_focused_on_murmur: bool,
}

impl FocusState {
    /// No window seen, not focused on this application.
    pub fn new() -> (s: FocusState)
        ensures
            s.last_active_hwnd == 0,
            !s.was_focused_on_murmur,
    {
        FocusState { last_active_hwnd: 0, was_focused_on_murmur: false }
    }
}

/// Records whether the dictation started while this application had the
/// focus.
pub fn set_was_focused_on_murmur(state: &mut FocusState, val: bool)
    ensures
        final(state).was_focused_on_murmur == val,
        final(state).last_active_hwnd == old(state).last_active_hwnd,
{
    state.was_focused_on_murmur = val;
}

/// The dictation starts with this application focused when the foreground
/// window belongs to this process (`foreground_pid` is 0 when there is no
/// foreground window).
pub fn focused_on_app(foreground_pid: u32, current_pid: u32) -> (r: bool)
    ensures
        r == (foreground_pid == current_pid),
{
    foreground_pid == current_pid
}

/// One poll of the focus tracker: a foreground window of another process
/// becomes the injection target.
pub fn track_foreground(state: &mut FocusState, hwnd: isize, window_pid: u32, current_pid: u32)
    ensures
        final(state).was_focused_on_murmur == old(state).was_focused_on_murmur,
        final(state).last_active_hwnd == if hwnd != 0 && window_pid != current_pid {
            hwnd
        } else {
            old(state).last_active_hwnd
        },
{
    if hwnd != 0 && window_pid != current_pid {
        state.last_active_hwnd = hwnd;
    }
}

/// The window to bring to the front before injecting: the last window of
/// another process, unless the dictation started in this application.
pub fn focus_target(state: &FocusState) -> (r: Option<isize>)
    ensures
        r == if !state.was_focused_on_murmur && state.last_active_hwnd != 0 {
            Some(state.last_active_hwnd)
        } else {
            None::<isize>
        },
{
    if !state.was_focused_on_murmur && state.last_active_hwnd != 0 {
        Some(state.last_active_hwnd)
    } else {
        None
    }
}

/// After an injection the focus flag is reset for the next dictation.
pub fn finish_injection(state: &mut FocusState)
    ensures
        !final(state).was_focused_on_murmur,
        final(state).last_active_hwnd == old(state).last_active_hwnd,
{
    state.was_focused_on_murmur = false;
}

/// The UTF-16 code units of one character: one unit in the basic plane,
/// a surrogate pair above it.
pub open spec fn utf16_of_char(c: char) -> Seq<u16> {
    let u = c as u32;
    if u < 0x10000 {
        seq![u as u16]
    } else {
        let v = u - 0x10000;
        seq![(0xD800 + v / 0x400) as u16, (0xDC00 + v % 0x400) as u16]
    }
}

/// The UTF-16 encoding of a text (`str::encode_utf16`).
pub open spec fn utf16_of(s: Seq<char>) -> Seq<u16>
    decreases s.len(),
{
    if s.len() == 0 {
        Seq::empty()
    } else {
        utf16_of(s.drop_last()) + utf16_of_char(s.last())
    }
}

/// The UTF-16 encoding of a text.
pub fn encode_utf16(text: &str) -> (r: Vec<u16>)
    ensures
        r@ == utf16_of(text@),
{
    let v = chars_of(text);
    let mut r: Vec<u16> = Vec::new();
    let mut i: usize = 0;
    while i < v.len()
        invariant
            i <= v@.len(),
            r@ == utf16_of(v@.subrange(0, i as int)),
        decreases v@.len() - i,
    {
        let ghost before = r@;
        let u = v[i] as u32;
        proof {
            assert(v@.subrange(0, i + 1).drop_last() =~= v@.subrange(0, i as int));
            assert(v@.subrange(0, i + 1).last() == v@[i as int]);
        }
        if u < 0x10000 {
            r.push(u as u16);
        } else {
            let w = u - 0x10000;
            r.push((0xD800 + w / 0x400) as u16);
            r.push((0xDC00 + w % 0x400) as u16);
        }
        assert(r@ =~= before + utf16_of_char(v@[i as int]));
        i = i + 1;
    }
    assert(v@.subrange(0, v@.len() as int) =~= v@);
    r
}

/// `KEYEVENTF_KEYUP`.
pub const KEYEVENTF_KEYUP: u32 = 0x0002;

/// `KEYEVENTF_UNICODE`.
pub const KEYEVENTF_UNICODE: u32 = 0x0004;

/// `VK_CONTROL`.
pub const VK_CONTROL: u16 = 0x11;

/// `VK_V`.
pub const VK_V: u16 = 0x56;

/// One synthesised keyboard event (`KEYBDINPUT`).
#[derive(Debug, Clone, Copy, PartialEq, Eq, Structural)]
pub struct KeyInput {
    pub vk: u16,
    pub scan: u16,
    pub flags: u32,
}

/// The keyboard events that type a text: for every UTF-16 unit, a Unicode
/// key press followed by its release.
pub open spec fn unicode_inputs_spec(units: Seq<u16>) -> Seq<KeyInput>
    decreases units.len(),
{
    if units.len() == 0 {
        Seq::empty()
    } else {
        unicode_inputs_spec(units.drop_last()) + seq![
            KeyInput { vk: 0, scan: units.last(), flags: KEYEVENTF_UNICODE },
            KeyInput { vk: 0, scan: units.last(), flags: KEYEVENTF_UNICODE | KEYEVENTF_KEYUP },
        ]
    }
}

/// The keyboard events that type the UTF-16 units of a text.
pub fn unicode_key_inputs(units: &Vec<u16>) -> (r: Vec<KeyInput>)
    ensures
        r@ == unicode_inputs_spec(units@),
        r@.len() == 2 * units@.len(),
{
    let mut r: Vec<KeyInput> = Vec::new();
    let mut i: usize = 0;
    while i < units.len()
        invariant
            i <= units@.len(),
            r@ == unicode_inputs_spec(units@.subrange(0, i as int)),
            r@.len() == 2 * i,
        decreases units@.len() - i,
    {
        let ghost before = r@;
        let ch = units[i];
        r.push(KeyInput { vk: 0, scan: ch, flags: KEYEVENTF_UNICODE });
        r.push(KeyInput { vk: 0, scan: ch, flags: KEYEVENTF_UNICODE | KEYEVENTF_KEYUP });
        proof {
            let p = units@.subrange(0, i + 1);
            assert(p.drop_last() =~= units@.subrange(0, i as int));
            assert(p.last() == ch);
            assert(r@ =~= before + seq![
                KeyInput { vk: 0, scan: ch, flags: KEYEVENTF_UNICODE },
                KeyInput { vk: 0, scan: ch, flags: KEYEVENTF_UNICODE | KEYEVENTF_KEYUP },
            ]);
        }
        i = i + 1;
    }
    assert(units@.subrange(0, units@.len() as int) =~= units@);
    r
}

/// The keyboard events of Ctrl+V: Ctrl down, V down, V up, Ctrl up.
pub fn paste_shortcut_inputs() -> (r: Vec<KeyInput>)
    ensures
        r@ == seq![
            KeyInput { vk: VK_CONTROL, scan: 0, flags: 0 },
            KeyInput { vk: VK_V, scan: 0, flags: 0 },
            KeyInput { vk: VK_V, scan: 0, flags: KEYEVENTF_KEYUP },
            KeyInput { vk: VK_CONTROL, scan: 0, flags: KEYEVENTF_KEYUP },
        ],
{
    let mut r: Vec<KeyInput> = Vec::new();
    r.push(KeyInput { vk: VK_CONTROL, scan: 0, flags: 0 });
    r.push(KeyInput { vk: VK_V, scan: 0, flags: 0 });
    r.push(KeyInput { vk: VK_V, scan: 0, flags: KEYEVENTF_KEYUP });
    r.push(KeyInput { vk: VK_CONTROL, scan: 0, flags: KEYEVENTF_KEYUP });
    assert(r@ =~= seq![
        KeyInput { vk: VK_CONTROL, scan: 0, flags: 0 },
        KeyInput { vk: VK_V, scan: 0, flags: 0 },
        KeyInput { vk: VK_V, scan: 0, flags: KEYEVENTF_KEYUP },
        KeyInput { vk: VK_CONTROL, scan: 0, flags: KEYEVENTF_KEYUP },
    ]);
    r
}

/// The outcome of typing a text, given how many of the `expected` events
/// `SendInput` accepted and the system's last error code.
pub fn unicode_send_result(sent: u32, expected: usize, last_error: u32) -> (r: Result<(), String>)
    ensures
        sent == 0 ==> (r matches Err(e) && e@ == "SendInput returned 0. Last error: "@ + decimal(
            last_error as nat,
        )),
        sent != 0 && sent != expected ==> (r matches Err(e) && e@
            == "Failed to send all Unicode inputs. Sent "@ + decimal(sent as nat) + "/"@ + decimal(
            expected as nat,
        )),
        sent != 0 && sent == expected ==> r is Ok,
{
    if sent == 0 {
        let mut e = String::from_str("SendInput returned 0. Last error: ");
        let n = u64_to_string(last_error as u64);
        e.append(n.as_str());
        return Err(e);
    }
    if sent as usize != expected {
        let mut e = String::from_str("Failed to send all Unicode inputs. Sent ");
        let a = u64_to_string(sent as u64);
        e.append(a.as_str());
        e.append("/");
        let b = u64_to_string(expected as u64);
        e.append(b.as_str());
        return Err(e);
    }
    Ok(())
}

/// The outcome of pasting, given how many of the four Ctrl+V events
/// `SendInput` accepted.
pub fn paste_send_result(sent: u32) -> (r: Result<(), String>)
    ensures
        sent == 4 ==> r is Ok,
        sent != 4 ==> (r matches Err(e) && e@ == "Failed to send Ctrl+V keyboard inputs"@),
{
    if sent != 4 {
        Err(String::from_str("Failed to send Ctrl+V keyboard inputs"))
    } else {
        Ok(())
    }
}

} // verus!
