use murmur::config::AppConfig;
use murmur::hotkey::{HotkeyEvent, RecordingType};
use murmur::session::{
    audio_device_list, error_status, greet, hides_overlay, hotkey_actions, local_model, missing_setting,
    plan_dictation, plan_note_transcription, plan_refinement, tray_menu_action, AppAction, CancelEffect,
    Refiner, SessionState, Transcriber, TranscriptionOutcome, TrayAction, VERBATIM_MODEL, VERBATIM_PROMPT,
};

#[test]
fn overlay_hides_on_idle_and_errors() {
    assert!(hides_overlay("Idle"));
    assert!(hides_overlay("Error: Missing OpenAI Key"));
    assert!(!hides_overlay("Recording"));
    assert!(!hides_overlay("Transcribing"));
    assert_eq!(error_status("boom"), "Error: boom");
}

#[test]
fn dictation_lifecycle() {
    let mut s = SessionState::new();
    assert!(s.should_start());
    assert!(!s.recording_started());
    assert!(!s.should_start());
    assert_eq!(s.status, "Recording");
    assert!(s.begin_transcription());
    assert_eq!(s.status, "Transcribing");
    match s.finish_transcription(Ok("hello".to_string())) {
        TranscriptionOutcome::Paste(t) => assert_eq!(t, "hello"),
        _ => panic!("expected paste"),
    }
    assert_eq!(s.status, "Pasting");
    assert!(!s.paste_finished(Ok(())));
    assert_eq!(s.status, "Idle");
}

#[test]
fn cancelled_dictation_is_discarded() {
    let mut s = SessionState::new();
    s.recording_started();
    s.begin_transcription();
    assert_eq!(s.cancel(), CancelEffect::NothingRecording);
    assert_eq!(s.status, "Idle");
    assert!(matches!(s.finish_transcription(Ok("late text".to_string())), TranscriptionOutcome::Discard));
    assert_eq!(s.status, "Idle");
    // the next dictation is not affected
    s.recording_started();
    s.begin_transcription();
    assert!(matches!(s.finish_transcription(Ok("next".to_string())), TranscriptionOutcome::Paste(_)));
}

#[test]
fn cancel_while_recording() {
    let mut s = SessionState::new();
    s.recording_started();
    assert_eq!(s.cancel(), CancelEffect::CancelRecorder);
    assert!(!s.is_recording);
    assert_eq!(s.status, "Idle");
    assert_eq!(s.cancel(), CancelEffect::NothingRecording);
    assert!(!s.begin_transcription());
}

#[test]
fn transcription_failures_and_empty_results() {
    let mut s = SessionState::new();
    s.recording_started();
    s.begin_transcription();
    assert!(matches!(s.finish_transcription(Ok(String::new())), TranscriptionOutcome::NothingToPaste));
    assert_eq!(s.status, "Idle");
    s.recording_started();
    s.begin_transcription();
    assert!(matches!(s.finish_transcription(Err("network down".to_string())), TranscriptionOutcome::ShowError));
    assert_eq!(s.status, "Error: network down");
    assert!(s.paste_finished(Err("no window".to_string())));
    assert_eq!(s.status, "Error: no window");
}

#[test]
fn note_recording_and_mic_test_guards() {
    let mut s = SessionState::new();
    assert_eq!(s.end_note_recording(), Err("Not recording".to_string()));
    assert_eq!(s.check_mic_test_allowed(), Ok(()));
    s.recording_started();
    assert_eq!(
        s.check_mic_test_allowed(),
        Err("Cannot test microphone while recording is in progress".to_string())
    );
    assert_eq!(s.end_note_recording(), Ok(()));
    assert!(!s.is_recording);
}

#[test]
fn missing_settings_in_order() {
    let mut c = AppConfig::default();
    assert_eq!(missing_setting(&c), Some("Error: Missing Gemini Key".to_string()));
    c.api_key = "  key ".to_string();
    assert_eq!(missing_setting(&c), None);
    c.transcription_provider = "openai".to_string();
    c.openai_api_key = "   ".to_string();
    assert_eq!(missing_setting(&c), Some("Error: Missing OpenAI Key".to_string()));
    c.openai_api_key = "sk".to_string();
    c.provider = "openrouter".to_string();
    assert_eq!(missing_setting(&c), Some("Error: Missing OpenRouter Key".to_string()));
    c.provider = "custom".to_string();
    assert_eq!(missing_setting(&c), Some("Error: Missing Custom URL".to_string()));
    c.provider = "lm_studio".to_string();
    c.lm_studio_url = " ".to_string();
    assert_eq!(missing_setting(&c), Some("Error: Missing LM Studio URL".to_string()));
}

#[test]
fn local_models() {
    assert_eq!(local_model("local_parakeet", "base"), Some(("parakeet", "parakeet_v3".to_string())));
    assert_eq!(local_model("local_whisper", "small"), Some(("whisper", "whisper_small".to_string())));
    assert_eq!(local_model("openai", "small"), None);
}

#[test]
fn dictation_plans() {
    let mut c = AppConfig::default();
    c.api_key = " g ".to_string();
    let p = plan_dictation(&c, false);
    assert!(!p.refine_after);
    match p.transcriber {
        Transcriber::Gemini { api_key, prompt, model } => {
            assert_eq!(api_key, "g");
            assert_eq!(prompt, c.prompt);
            assert_eq!(model, "gemini-2.0-flash");
        }
        _ => panic!("expected gemini"),
    }
    c.provider = "ollama".to_string();
    let p = plan_dictation(&c, false);
    assert!(p.refine_after);
    match p.transcriber {
        Transcriber::Gemini { prompt, model, .. } => {
            assert_eq!(prompt, VERBATIM_PROMPT);
            assert_eq!(model, VERBATIM_MODEL);
        }
        _ => panic!("expected gemini"),
    }
    c.provider = "none".to_string();
    assert!(!plan_dictation(&c, false).refine_after);
    c.transcription_provider = "local_parakeet".to_string();
    assert!(matches!(plan_dictation(&c, false).transcriber, Transcriber::ModelMissing));
    let p = plan_dictation(&c, true);
    assert!(p.refine_after);
    match p.transcriber {
        Transcriber::LocalSherpa { model_type, model_id } => {
            assert_eq!(model_type, "parakeet");
            assert_eq!(model_id, "parakeet_v3");
        }
        _ => panic!("expected sherpa"),
    }
    c.transcription_provider = "local_whisper".to_string();
    assert!(matches!(plan_dictation(&c, false).transcriber, Transcriber::LocalWhisperCli { .. }));
    c.transcription_provider = "lm_studio".to_string();
    c.lm_studio_url = " http://h:1 ".to_string();
    match plan_dictation(&c, false).transcriber {
        Transcriber::LmStudio { url } => assert_eq!(url, "http://h:1"),
        _ => panic!("expected lm studio"),
    }
}

#[test]
fn note_plans_are_verbatim() {
    let mut c = AppConfig::default();
    c.api_key = " g ".to_string();
    match plan_note_transcription(&c, false) {
        Transcriber::Gemini { api_key, prompt, model } => {
            assert_eq!(api_key, " g ");
            assert_eq!(prompt, VERBATIM_PROMPT);
            assert_eq!(model, VERBATIM_MODEL);
        }
        _ => panic!("expected gemini"),
    }
}

#[test]
fn refinement_plans() {
    let mut c = AppConfig::default();
    assert!(matches!(plan_refinement("", &c), Refiner::EmptyText));
    assert!(matches!(plan_refinement("x", &c), Refiner::Gemini { .. }));
    c.provider = "openai".to_string();
    match plan_refinement("x", &c) {
        Refiner::OpenAiCompatible { url, model, .. } => {
            assert_eq!(url, "https://api.openai.com/v1");
            assert_eq!(model, "gpt-4o-mini");
        }
        _ => panic!("expected openai"),
    }
    c.provider = "openrouter".to_string();
    match plan_refinement("x", &c) {
        Refiner::OpenAiCompatible { url, model, .. } => {
            assert_eq!(url, "https://openrouter.ai/api/v1");
            assert_eq!(model, "google/gemini-2.5-flash");
        }
        _ => panic!("expected openrouter"),
    }
    c.provider = "lm_studio".to_string();
    match plan_refinement("x", &c) {
        Refiner::OpenAiCompatible { url, api_key, .. } => {
            assert_eq!(url, "http://localhost:1234");
            assert_eq!(api_key, "");
        }
        _ => panic!("expected lm studio"),
    }
    c.provider = "ollama".to_string();
    assert!(matches!(plan_refinement("x", &c), Refiner::Ollama { .. }));
    c.provider = "none".to_string();
    assert!(matches!(plan_refinement("x", &c), Refiner::Unchanged));
    c.provider = "local_llm".to_string();
    match plan_refinement("x", &c) {
        Refiner::LocalLlm { model_id } => assert_eq!(model_id, "qwen3_0.6b"),
        other => panic!("unexpected refiner {:?}", other),
    }
    assert!(matches!(plan_refinement("", &c), Refiner::EmptyText));
}

#[test]
fn hotkey_event_actions() {
    assert_eq!(hotkey_actions(HotkeyEvent::Pressed(RecordingType::Transcribe), false), vec![AppAction::StartDictation]);
    assert_eq!(
        hotkey_actions(HotkeyEvent::Pressed(RecordingType::Notes), false),
        vec![AppAction::FocusMainWindow, AppAction::OpenNoteTitleDialog]
    );
    assert!(hotkey_actions(HotkeyEvent::Released(RecordingType::Notes), true).is_empty());
    assert!(hotkey_actions(HotkeyEvent::Cancelled(RecordingType::Notes), false).is_empty());
    assert_eq!(
        hotkey_actions(HotkeyEvent::GlobalCancel, true),
        vec![AppAction::CancelRecording, AppAction::NoteRecordingCancelled]
    );
    assert_eq!(hotkey_actions(HotkeyEvent::GlobalCancel, false), vec![AppAction::NoteRecordingCancelled]);
}

#[test]
fn tray_menu() {
    assert_eq!(tray_menu_action("home"), TrayAction::ShowDashboard);
    assert_eq!(tray_menu_action("settings"), TrayAction::ShowSettings);
    assert_eq!(tray_menu_action("exit"), TrayAction::Exit);
    assert_eq!(tray_menu_action("other"), TrayAction::Nothing);
}

#[test]
fn device_list_without_repeats() {
    let found = vec!["Mic A".to_string(), "Default".to_string(), "Mic B".to_string(), "Mic A".to_string()];
    assert_eq!(audio_device_list(&found), vec!["Default", "Mic A", "Mic B"]);
    assert_eq!(audio_device_list(&vec![]), vec!["Default"]);
}

#[test]
fn greeting() {
    assert_eq!(greet("Ana"), "Hello, Ana! You've been greeted from Rust!");
}
