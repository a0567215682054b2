use murmur::hotkey::{
    get_cancel_vk, handle_key_event, is_hotkey_held, match_hotkey_state, parse_hotkey,
    update_hotkeys, HookState, HotkeyBindings, HotkeyEvent, KeyTransition, ModifierState,
    ParsedHotkey, RecordingType,
};

const VK_LCONTROL: u32 = 0xA2;
const VK_LWIN: u32 = 0x5B;
const VK_LSHIFT: u32 = 0xA0;
const VK_ESCAPE: u32 = 0x1B;

fn none_held() -> ModifierState {
    ModifierState { ctrl: false, win: false, shift: false, alt: false }
}

#[test]
fn cancel_vk_named_keys() {
    assert_eq!(get_cancel_vk("Escape"), 0x1B);
    assert_eq!(get_cancel_vk("esc"), 0x1B);
    assert_eq!(get_cancel_vk("F12"), 0x7B);
    assert_eq!(get_cancel_vk("Page Down"), 0x22);
    assert_eq!(get_cancel_vk("`"), 0xC0);
    assert_eq!(get_cancel_vk("SCROLLLOCK"), 0x91);
}

#[test]
fn cancel_vk_single_characters() {
    assert_eq!(get_cancel_vk("q"), 'Q' as u32);
    assert_eq!(get_cancel_vk("7"), '7' as u32);
    assert_eq!(get_cancel_vk("?"), 0x1B);
    assert_eq!(get_cancel_vk("é"), 0x1B);
    assert_eq!(get_cancel_vk("Unknown"), 0x1B);
}

#[test]
fn cancel_vk_kelvin_sign_lowers_to_k() {
    // U+212A KELVIN SIGN lowers to an ASCII 'k'.
    assert_eq!(get_cancel_vk("bac\u{212A}space"), 0x08);
}

#[test]
fn parse_modifier_only_hotkey() {
    assert_eq!(
        parse_hotkey("Control + Win"),
        ParsedHotkey { has_base_key: false, base_vk: 0, ctrl: true, win: true, shift: false, alt: false }
    );
    assert_eq!(
        parse_hotkey("Control"),
        ParsedHotkey { has_base_key: false, base_vk: 0, ctrl: true, win: false, shift: false, alt: false }
    );
}

#[test]
fn parse_hotkey_with_base_key() {
    assert_eq!(
        parse_hotkey("Control + Shift + C"),
        ParsedHotkey { has_base_key: true, base_vk: 'C' as u32, ctrl: true, win: false, shift: true, alt: false }
    );
    assert_eq!(
        parse_hotkey("Alt + Escape"),
        ParsedHotkey { has_base_key: true, base_vk: 0x1B, ctrl: false, win: false, shift: false, alt: true }
    );
    assert_eq!(
        parse_hotkey("F12"),
        ParsedHotkey { has_base_key: true, base_vk: 0x7B, ctrl: false, win: false, shift: false, alt: false }
    );
}

#[test]
fn parse_hotkey_separator_needs_spaces() {
    // "Control+Win" is one part: not a modifier name, so it is a base key.
    let p = parse_hotkey("Control+Win");
    assert!(p.has_base_key);
    assert!(!p.ctrl && !p.win);
}

#[test]
fn match_modifier_hotkey_requires_exact_modifiers() {
    let ctrl_win = ModifierState { ctrl: true, win: true, shift: false, alt: false };
    assert!(match_hotkey_state("Control + Win", VK_LWIN, true, ctrl_win));
    let only_ctrl = ModifierState { ctrl: true, ..none_held() };
    assert!(!match_hotkey_state("Control + Win", VK_LCONTROL, true, only_ctrl));
    assert!(match_hotkey_state("Control", VK_LCONTROL, true, only_ctrl));
    // a base key does not complete a modifier-only hotkey
    assert!(!match_hotkey_state("Control", 0x41, false, only_ctrl));
}

#[test]
fn match_base_key_hotkey() {
    assert!(match_hotkey_state("Escape", VK_ESCAPE, false, none_held()));
    assert!(!match_hotkey_state("Escape", VK_ESCAPE, false, ModifierState { shift: true, ..none_held() }));
    assert!(!match_hotkey_state("Escape", 0x41, false, none_held()));
}

#[test]
fn hotkey_held_until_released() {
    let ctrl = ModifierState { ctrl: true, ..none_held() };
    assert!(is_hotkey_held("Control", 0x41, false, false, ctrl));
    assert!(!is_hotkey_held("Control", VK_LCONTROL, true, true, none_held()));
    assert!(!is_hotkey_held("Control + Shift + C", 'C' as u32, false, true,
        ModifierState { ctrl: true, shift: true, ..none_held() }));
    // another modifier joining lets go of the hotkey
    assert!(!is_hotkey_held("Control", VK_LSHIFT, true, false,
        ModifierState { ctrl: true, shift: true, ..none_held() }));
}

#[test]
fn update_hotkeys_replaces_bindings() {
    let mut b = HotkeyBindings::new();
    assert_eq!(b.transcribe, "Control");
    assert_eq!(b.notes, "Control + Win");
    assert_eq!(b.cancel, "Escape");
    update_hotkeys(&mut b, "Alt", "Alt + Shift", "F9");
    assert_eq!(b.transcribe, "Alt");
    assert_eq!(b.notes, "Alt + Shift");
    assert_eq!(b.cancel, "F9");
}

fn press(state: &mut HookState, b: &HotkeyBindings, vk: u32) -> Vec<HotkeyEvent> {
    handle_key_event(state, b, vk, 0, KeyTransition::Down)
}

fn release(state: &mut HookState, b: &HotkeyBindings, vk: u32) -> Vec<HotkeyEvent> {
    handle_key_event(state, b, vk, 0, KeyTransition::Up)
}

#[test]
fn push_to_talk_press_and_release() {
    let b = HotkeyBindings::new();
    let mut s = HookState::new();
    assert_eq!(press(&mut s, &b, VK_LCONTROL), vec![HotkeyEvent::Pressed(RecordingType::Transcribe)]);
    assert_eq!(s.active, Some(RecordingType::Transcribe));
    assert!(s.held.ctrl);
    assert_eq!(release(&mut s, &b, VK_LCONTROL), vec![HotkeyEvent::Released(RecordingType::Transcribe)]);
    assert_eq!(s.active, None);
    assert!(!s.held.ctrl);
}

#[test]
fn notes_hotkey_takes_over_transcription() {
    let b = HotkeyBindings::new();
    let mut s = HookState::new();
    press(&mut s, &b, VK_LCONTROL);
    let events = press(&mut s, &b, VK_LWIN);
    assert_eq!(
        events,
        vec![
            HotkeyEvent::Cancelled(RecordingType::Transcribe),
            HotkeyEvent::Pressed(RecordingType::Notes)
        ]
    );
    assert_eq!(s.active, Some(RecordingType::Notes));
}

#[test]
fn cancel_hotkey_ends_active_recording() {
    let b = HotkeyBindings::new();
    let mut s = HookState::new();
    press(&mut s, &b, VK_LCONTROL);
    release(&mut s, &b, VK_LCONTROL);
    // nothing active: only the global cancel
    assert_eq!(press(&mut s, &b, VK_ESCAPE), vec![HotkeyEvent::GlobalCancel]);
    let mut s2 = HookState::new();
    let b2 = {
        let mut b2 = HotkeyBindings::new();
        update_hotkeys(&mut b2, "F8", "F7", "Escape");
        b2
    };
    press(&mut s2, &b2, 0x77);
    assert_eq!(s2.active, Some(RecordingType::Transcribe));
    assert_eq!(
        press(&mut s2, &b2, VK_ESCAPE),
        vec![HotkeyEvent::GlobalCancel, HotkeyEvent::Cancelled(RecordingType::Transcribe)]
    );
    assert_eq!(s2.active, None);
}

#[test]
fn injected_key_events_are_ignored() {
    let b = HotkeyBindings::new();
    let mut s = HookState::new();
    let events = handle_key_event(&mut s, &b, VK_LCONTROL, 0x10, KeyTransition::Down);
    assert!(events.is_empty());
    assert_eq!(s, HookState::new());
    let events = handle_key_event(&mut s, &b, VK_LCONTROL, 0x02, KeyTransition::Down);
    assert!(events.is_empty());
    assert_eq!(s, HookState::new());
}

#[test]
fn event_stream_is_well_bracketed() {
    let b = HotkeyBindings::new();
    let mut s = HookState::new();
    let keys = [
        (VK_LCONTROL, KeyTransition::Down),
        (VK_LWIN, KeyTransition::Down),
        (VK_LWIN, KeyTransition::Up),
        (VK_LCONTROL, KeyTransition::Up),
        (VK_LCONTROL, KeyTransition::Down),
        (VK_ESCAPE, KeyTransition::Down),
        (VK_LCONTROL, KeyTransition::Up),
    ];
    let mut active: Option<RecordingType> = None;
    for (vk, t) in keys {
        for e in handle_key_event(&mut s, &b, vk, 0, t) {
            match e {
                HotkeyEvent::Pressed(r) => {
                    assert_eq!(active, None);
                    active = Some(r);
                }
                HotkeyEvent::Released(r) | HotkeyEvent::Cancelled(r) => {
                    assert_eq!(active, Some(r));
                    active = None;
                }
                HotkeyEvent::GlobalCancel => {}
            }
        }
        assert_eq!(active, s.active);
    }
}

#[test]
fn releasing_a_modifier_of_a_chord_ends_the_recording() {
    let mut b = HotkeyBindings::new();
    update_hotkeys(&mut b, "Shift + F9", "Control + Win", "Escape");
    let mut s = HookState::new();
    assert!(press(&mut s, &b, VK_LSHIFT).is_empty());
    assert_eq!(press(&mut s, &b, 0x78), vec![HotkeyEvent::Pressed(RecordingType::Transcribe)]);
    // the base key is still down, but the chord's modifier goes up
    assert_eq!(release(&mut s, &b, VK_LSHIFT), vec![HotkeyEvent::Released(RecordingType::Transcribe)]);
    assert_eq!(s.active, None);
    assert!(!s.held.shift);
}

#[test]
fn key_names_ignore_ascii_case() {
    for name in ["c", "esc", "Page Up", "f12", "Scroll Lock", "9", "Unknown", "?"] {
        let vk = get_cancel_vk(name);
        assert_eq!(get_cancel_vk(&name.to_ascii_lowercase()), vk);
        assert_eq!(get_cancel_vk(&name.to_ascii_uppercase()), vk);
    }
    assert_eq!(get_cancel_vk("C"), 0x43);
    assert_eq!(get_cancel_vk("ESC"), 0x1B);
}

#[test]
fn presses_and_ends_alternate() {
    let b = HotkeyBindings::new();
    let mut s = HookState::new();
    let keys = [
        (VK_LCONTROL, KeyTransition::Down),
        (VK_LWIN, KeyTransition::Down),
        (VK_ESCAPE, KeyTransition::Down),
        (VK_LWIN, KeyTransition::Up),
        (VK_LCONTROL, KeyTransition::Up),
        (VK_LCONTROL, KeyTransition::Down),
        (VK_LCONTROL, KeyTransition::Up),
    ];
    let mut last: Option<HotkeyEvent> = None;
    for (vk, t) in keys {
        for e in handle_key_event(&mut s, &b, vk, 0, t) {
            match e {
                HotkeyEvent::GlobalCancel => continue,
                HotkeyEvent::Pressed(_) => assert!(!matches!(last, Some(HotkeyEvent::Pressed(_)))),
                HotkeyEvent::Released(r) | HotkeyEvent::Cancelled(r) => {
                    assert_eq!(last, Some(HotkeyEvent::Pressed(r)))
                }
            }
            last = Some(e);
        }
        let expected = match last {
            Some(HotkeyEvent::Pressed(r)) => Some(r),
            _ => None,
        };
        assert_eq!(s.active, expected);
    }
}
