use murmur::config::{default_cancel_key, default_model, default_noise_gate, default_notes_key, default_openrouter_model, AppConfig};
use murmur::downloader::{get_model_files, is_file_complete, model_files_present, skip_status, DOWNLOAD_COMPLETE_STATUS};

#[test]
fn config_defaults() {
    let c = AppConfig::default();
    assert_eq!(c.api_key, "");
    assert_eq!(c.prompt, "Transcribe and clean up the audio. Remove filler words and format appropriately.");
    assert_eq!(c.model, "gemini-2.0-flash");
    assert_eq!(c.provider, "gemini");
    assert_eq!(c.ollama_url, "http://localhost:11434");
    assert_eq!(c.transcription_language, "auto");
    assert_eq!(c.lm_studio_url, "http://localhost:1234");
    assert_eq!(c.transcribe_key, "Control");
    assert_eq!(c.notes_key, "Control + Win");
    assert_eq!(c.cancel_key, "Escape");
    assert!(!c.noise_gate);
    assert_eq!(default_cancel_key(), "Escape");
    assert_eq!(default_model(), "gemini-2.0-flash");
    assert_eq!(default_notes_key(), "Control + Win");
    assert_eq!(default_openrouter_model(), "google/gemini-2.5-flash");
    assert!(!default_noise_gate());
}

#[test]
fn deprecated_model_is_migrated() {
    let mut c = AppConfig::default();
    c.model = "gemini-1.5-flash".to_string();
    c.api_key = "k".to_string();
    assert!(c.migrate_deprecated_model());
    assert_eq!(c.model, "gemini-2.0-flash");
    assert_eq!(c.api_key, "k");
    assert!(!c.migrate_deprecated_model());
    c.model = "gemini-2.5-pro".to_string();
    assert!(!c.migrate_deprecated_model());
    assert_eq!(c.model, "gemini-2.5-pro");
}

#[test]
fn model_file_lists() {
    let f = get_model_files("parakeet_v3").unwrap();
    assert_eq!(f.len(), 4);
    assert_eq!(f[0].name, "encoder.int8.onnx");
    assert_eq!(f[3].name, "tokens.txt");
    assert_eq!(
        f[3].url,
        "https://huggingface.co/csukuangfj/sherpa-onnx-nemo-parakeet-tdt-0.6b-v3-int8/resolve/main/tokens.txt"
    );
    let f = get_model_files("whisper_small").unwrap();
    assert_eq!(f.iter().map(|x| x.name).collect::<Vec<_>>(), vec!["small-encoder.int8.onnx", "small-decoder.int8.onnx", "small-tokens.txt"]);
    assert_eq!(get_model_files("whisper_tiny").unwrap().len(), 3);
    assert_eq!(get_model_files("whisper_base").unwrap()[2].name, "base-tokens.txt");
    let q = get_model_files("qwen3_0.6b").unwrap();
    assert_eq!(q.len(), 1);
    assert!(q[0].name.ends_with(".gguf"));
}

#[test]
fn unknown_model_is_an_error() {
    assert_eq!(get_model_files("whisper_large").err(), Some("Unsupported model ID: whisper_large".to_string()));
}

#[test]
fn downloaded_files() {
    assert!(is_file_complete(Some(10)));
    assert!(!is_file_complete(Some(0)));
    assert!(!is_file_complete(None));
    assert!(model_files_present(&vec![Some(1), Some(2)]));
    assert!(!model_files_present(&vec![Some(1), Some(0)]));
    assert!(!model_files_present(&vec![None, Some(2)]));
    assert!(model_files_present(&vec![]));
}

#[test]
fn download_status_messages() {
    assert_eq!(skip_status(0, 3, "tokens.txt"), "Skipped existing file 1/3 (tokens.txt)");
    assert_eq!(skip_status(9, 12, "a"), "Skipped existing file 10/12 (a)");
    assert_eq!(DOWNLOAD_COMPLETE_STATUS, "All files downloaded successfully!");
}
