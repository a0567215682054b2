use murmur::api::{
    gemini_audio_request, gemini_url, get_language_name, half_cpus, lm_studio_endpoint,
    lm_studio_transcription_fields, llama_cli_args, local_refine_prompts, needs_openrouter_headers,
    ollama_endpoint, openai_compatible_endpoint, openai_transcription_fields, refine_request,
    reply_text, sherpa_script_args, sherpa_transcript, transcription_directive, transcription_prompt,
    whisper_cli_args, Service, HINGLISH_PRIMER, REFINE_SYSTEM_ENGLISH, REFINE_SYSTEM_OTHER,
    TRANSCRIBE_DIRECTIVE_AUTO, TRANSCRIBE_SYSTEM_HINDI,
};

fn pairs(v: &[(String, String)]) -> Vec<(&str, &str)> {
    v.iter().map(|(a, b)| (a.as_str(), b.as_str())).collect()
}

#[test]
fn language_names() {
    assert_eq!(get_language_name("en"), "English");
    assert_eq!(get_language_name("hi"), "Hindi");
    assert_eq!(get_language_name("ja"), "Japanese");
    assert_eq!(get_language_name("auto"), "Auto-detect");
    assert_eq!(get_language_name("ta"), "Auto-detect");
}

#[test]
fn transcription_directive_for_named_language() {
    assert_eq!(
        transcription_directive("Spanish"),
        " IMPORTANT: The audio is spoken in Spanish (or a mix of Spanish and English). You must transcribe exactly what is spoken in that same language mix. Write Spanish words in native script and English words in English script. Do NOT translate non-English words to English."
    );
    assert_eq!(transcription_directive("Auto-detect"), TRANSCRIBE_DIRECTIVE_AUTO);
}

#[test]
fn transcription_prompt_uses_default_instruction_when_empty() {
    assert_eq!(
        transcription_prompt("", "D"),
        "User Instruction: Transcribe and clean up the audio.\n\nCRITICAL SCRIPT & LANGUAGE DIRECTIVE: D\n\nTranscribe and clean up the audio according to these instructions:"
    );
    assert_eq!(
        transcription_prompt("Be brief.", "D"),
        "User Instruction: Be brief.\n\nCRITICAL SCRIPT & LANGUAGE DIRECTIVE: D\n\nTranscribe and clean up the audio according to these instructions:"
    );
}

#[test]
fn gemini_audio_request_encodes_audio() {
    let r = gemini_audio_request(b"RIFF", "KEY", "", "gemini-2.0-flash", "hi");
    assert_eq!(r.audio_base64, "UklGRg==");
    for (bytes, text) in [(&b"Man"[..], "TWFu"), (b"Ma", "TWE="), (b"M", "TQ=="), (b"", ""), (&[0xfb, 0xff][..], "+/8=")] {
        assert_eq!(gemini_audio_request(bytes, "K", "", "m", "en").audio_base64, text);
    }
    assert_eq!(r.mime_type, "audio/wav");
    assert_eq!(
        r.url,
        "https://generativelanguage.googleapis.com/v1beta/models/gemini-2.0-flash:generateContent?key=KEY"
    );
    assert_eq!(r.system_instruction, TRANSCRIBE_SYSTEM_HINDI);
    assert!(r.prompt.starts_with("User Instruction: Transcribe and clean up the audio.\n\n"));
}

#[test]
fn refine_request_for_languages() {
    let r = refine_request("Fix it.", "um hello", "en");
    assert_eq!(r.system_instruction, REFINE_SYSTEM_ENGLISH);
    assert!(r.prompt.contains("\"\"\"\num hello\n\"\"\""));
    assert!(r.prompt.starts_with("User Instruction: Fix it.\n\nCRITICAL SCRIPT & LANGUAGE DIRECTIVE: IMPORTANT: The text is in English."));
    let r = refine_request("", "hola", "es");
    assert_eq!(r.system_instruction, REFINE_SYSTEM_OTHER);
    assert!(r.prompt.contains(" IMPORTANT: The text is in Spanish (or a mix of Spanish and English)."));
}

#[test]
fn endpoints_are_normalised() {
    assert_eq!(ollama_endpoint("http://localhost:11434//"), "http://localhost:11434/api/generate");
    assert_eq!(lm_studio_endpoint(" http://localhost:1234/ "), "http://localhost:1234/v1/audio/transcriptions");
    assert_eq!(lm_studio_endpoint("http://h/v1"), "http://h/v1/audio/transcriptions");
    assert_eq!(lm_studio_endpoint("http://h/v1/audio/transcriptions/"), "http://h/v1/audio/transcriptions");
    assert_eq!(openai_compatible_endpoint("https://api.openai.com/v1"), "https://api.openai.com/v1/chat/completions");
    assert_eq!(openai_compatible_endpoint("https://x/v1/"), "https://x/v1/chat/completions");
    assert_eq!(openai_compatible_endpoint(" https://x/v1/completions "), "https://x/v1/completions");
    assert!(needs_openrouter_headers("https://openrouter.ai/api/v1/chat/completions"));
    assert!(!needs_openrouter_headers("https://api.openai.com/v1/chat/completions"));
    assert_eq!(gemini_url("m", "k"), "https://generativelanguage.googleapis.com/v1beta/models/m:generateContent?key=k");
}

#[test]
fn transcription_form_fields() {
    let f = openai_transcription_fields("whisper-1", "auto");
    assert_eq!(pairs(&f), vec![("model", "whisper-1"), ("prompt", HINGLISH_PRIMER)]);
    let f = openai_transcription_fields("whisper-1", "hi");
    assert_eq!(pairs(&f), vec![("model", "whisper-1"), ("language", "hi"), ("prompt", HINGLISH_PRIMER)]);
    let f = openai_transcription_fields("whisper-1", "fr");
    assert_eq!(pairs(&f), vec![("model", "whisper-1"), ("language", "fr")]);
    let f = lm_studio_transcription_fields("auto");
    assert_eq!(pairs(&f), vec![("model", "whisper-1")]);
    let f = lm_studio_transcription_fields("de");
    assert_eq!(pairs(&f), vec![("model", "whisper-1"), ("language", "de")]);
}

#[test]
fn command_lines() {
    let a = whisper_cli_args("/t/a.wav", "base", "/t", "en");
    assert_eq!(
        a,
        vec!["/t/a.wav", "--model", "base", "--output_dir", "/t", "--output_format", "txt", "--fp16", "False", "--language", "en"]
    );
    let a = whisper_cli_args("/t/a.wav", "base", "/t", "auto");
    assert_eq!(a[9], "--initial_prompt");
    assert_eq!(a.len(), 11);
    let a = sherpa_script_args("s.py", "a.wav", "whisper", "/m", "auto");
    assert_eq!(a, vec!["s.py", "--wav_path", "a.wav", "--model_type", "whisper", "--model_dir", "/m", "--language", "auto"]);
    let a = llama_cli_args("m.gguf", "S", "U", 6, false);
    assert_eq!(
        a,
        vec!["--model", "m.gguf", "-sys", "S", "-p", "U", "--n-predict", "1024", "--ctx-size", "4096", "--temp", "0.2", "--threads", "6", "-st", "--no-display-prompt", "--reasoning-budget", "0"]
    );
    assert_eq!(llama_cli_args("m", "S", "U", 12, true).len(), 16);
}

#[test]
fn thread_count_is_half_the_processors() {
    assert_eq!(half_cpus(Some(8)), 4);
    assert_eq!(half_cpus(Some(1)), 1);
    assert_eq!(half_cpus(Some(0)), 1);
    assert_eq!(half_cpus(None), 2);
}

#[test]
fn local_prompts() {
    let p = local_refine_prompts("", "uh hi", "en");
    assert!(p.system_prompt.ends_with("Return only the cleaned text."));
    assert!(p.user_prompt.ends_with("\n\nText: \"uh hi\""));
    let p = local_refine_prompts("Formal.", "uh hi", "fr");
    assert!(p.system_prompt.contains("Keep all original French words in their native script."));
    assert!(p.user_prompt.ends_with("\n\nUser Instruction: Formal.\n\nText: \"uh hi\""));
}

#[test]
fn reply_text_reads_each_service() {
    let g = br#"{"candidates":[{"content":{"parts":[{"text":"  hello \n"}]}}]}"#;
    assert_eq!(reply_text(Service::Gemini, g), Ok("hello".to_string()));
    assert_eq!(reply_text(Service::Ollama, br#"{"response":" ok "}"#), Ok("ok".to_string()));
    assert_eq!(reply_text(Service::OpenAi, br#"{"text":"t"}"#), Ok("t".to_string()));
    let c = br#"{"choices":[{"message":{"content":"done"}}]}"#;
    assert_eq!(reply_text(Service::OpenAiCompatible, c), Ok("done".to_string()));
}

#[test]
fn reply_text_errors() {
    let e = reply_text(Service::LmStudio, br#"{"other":1}"#).unwrap_err();
    assert!(e.starts_with("Unexpected LM Studio response structure. Response: "));
    assert!(e.contains("other"));
    let e = reply_text(Service::Gemini, b"not json").unwrap_err();
    assert_eq!(e, "Failed to parse Gemini response: error decoding response body");
    let e = reply_text(Service::OpenAiCompatible, b"[").unwrap_err();
    assert_eq!(e, "Failed to parse response JSON: error decoding response body");
}

#[test]
fn sherpa_output() {
    assert_eq!(sherpa_transcript(r#"{"text": " namaste "}"#), Ok("namaste".to_string()));
    assert_eq!(
        sherpa_transcript(r#"{"error": "model missing"}"#),
        Err("Error from transcription engine: model missing".to_string())
    );
    assert_eq!(
        sherpa_transcript(r#"{"x": 1}"#),
        Err("Invalid response format from script. Raw output: {\"x\": 1}".to_string())
    );
    let e = sherpa_transcript("oops").unwrap_err();
    assert!(e.starts_with("Failed to parse transcription script output JSON: "));
    assert!(e.ends_with(". Raw output: oops"));
}
