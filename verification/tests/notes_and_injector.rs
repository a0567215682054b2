use murmur::injector::{
    encode_utf16, finish_injection, focus_target, focused_on_app, paste_send_result, paste_shortcut_inputs,
    set_was_focused_on_murmur, track_foreground, unicode_key_inputs, unicode_send_result, FocusState, KeyInput,
};
use murmur::text::{find, i64_to_string, split, str_equal, trim, u64_to_string};
use murmur::voice_notes::{
    audio_file_name, audio_file_url, background_note_file_name, new_voice_note, transcription_failed_text,
    wants_polish,
};

#[test]
fn voice_note_records() {
    let n = new_voice_note(7, "T".to_string(), "body".to_string(), "/p/vn_7.wav".to_string(), "2024-01-01".to_string());
    assert_eq!(n.id, 7);
    assert_eq!(n.duration_seconds, None);
    assert_eq!(n.created_at, "2024-01-01");
    assert_eq!(n.updated_at, "2024-01-01");
    assert_eq!(audio_file_name(42), "vn_42.wav");
    assert_eq!(audio_file_name(-3), "vn_-3.wav");
    assert_eq!(audio_file_url("/data/vn_1.wav"), "file:///data/vn_1.wav");
    assert!(wants_polish("polished"));
    assert!(!wants_polish("raw"));
    assert_eq!(transcription_failed_text("x"), "Transcription failed: x");
    assert_eq!(background_note_file_name("20240101120000"), "murmur_vn_20240101120000.wav");
}

#[test]
fn focus_tracking() {
    let mut f = FocusState::new();
    track_foreground(&mut f, 0, 5, 1);
    assert_eq!(f.last_active_hwnd, 0);
    track_foreground(&mut f, 100, 1, 1);
    assert_eq!(f.last_active_hwnd, 0);
    track_foreground(&mut f, 200, 5, 1);
    assert_eq!(f.last_active_hwnd, 200);
    assert_eq!(focus_target(&f), Some(200));
    set_was_focused_on_murmur(&mut f, focused_on_app(1, 1));
    assert_eq!(focus_target(&f), None);
    finish_injection(&mut f);
    assert!(!f.was_focused_on_murmur);
    assert_eq!(focus_target(&f), Some(200));
}

#[test]
fn utf16_and_key_inputs() {
    let text = "aé😀";
    assert_eq!(encode_utf16(text), text.encode_utf16().collect::<Vec<u16>>());
    let units = encode_utf16("hi");
    let inputs = unicode_key_inputs(&units);
    assert_eq!(
        inputs,
        vec![
            KeyInput { vk: 0, scan: 'h' as u16, flags: 4 },
            KeyInput { vk: 0, scan: 'h' as u16, flags: 6 },
            KeyInput { vk: 0, scan: 'i' as u16, flags: 4 },
            KeyInput { vk: 0, scan: 'i' as u16, flags: 6 },
        ]
    );
    let paste = paste_shortcut_inputs();
    assert_eq!(paste.len(), 4);
    assert_eq!(paste[0], KeyInput { vk: 0x11, scan: 0, flags: 0 });
    assert_eq!(paste[2], KeyInput { vk: 0x56, scan: 0, flags: 2 });
}

#[test]
fn send_results() {
    assert_eq!(unicode_send_result(0, 4, 87), Err("SendInput returned 0. Last error: 87".to_string()));
    assert_eq!(unicode_send_result(2, 4, 0), Err("Failed to send all Unicode inputs. Sent 2/4".to_string()));
    assert_eq!(unicode_send_result(4, 4, 0), Ok(()));
    assert_eq!(paste_send_result(4), Ok(()));
    assert_eq!(paste_send_result(3), Err("Failed to send Ctrl+V keyboard inputs".to_string()));
}

#[test]
fn text_utilities() {
    assert_eq!(trim("\u{3000}\t a b \u{2028}"), "a b");
    assert_eq!(trim("   "), "");
    assert!(str_equal("abc", "abc"));
    assert!(!str_equal("abc", "abd"));
    let s: Vec<char> = "a + b + c".chars().collect();
    let sep: Vec<char> = " + ".chars().collect();
    let parts: Vec<String> = split(&s, &sep).iter().map(|p| p.iter().collect()).collect();
    assert_eq!(parts, vec!["a", "b", "c"]);
    let pat: Vec<char> = "b".chars().collect();
    assert_eq!(find(&s, &pat), Some(4));
    assert_eq!(u64_to_string(0), "0");
    assert_eq!(u64_to_string(18446744073709551615), "18446744073709551615");
    assert_eq!(i64_to_string(i64::MIN), "-9223372036854775808");
}
