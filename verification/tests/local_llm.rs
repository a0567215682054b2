use murmur::local_llm::{archive_entry_wanted, clean_llm_output, is_gguf_model_file, llama_failure_message};

#[test]
fn clean_output_passes_plain_text() {
    assert_eq!(clean_llm_output("  Hello world.\n", "raw"), "Hello world.");
}

#[test]
fn clean_output_drops_think_block() {
    assert_eq!(clean_llm_output("<think>hmm</think>\n  Final text", "raw"), "Final text");
    assert_eq!(clean_llm_output("Answer <think>never closed", "raw"), "Answer");
}

#[test]
fn clean_output_cuts_stop_tokens() {
    assert_eq!(clean_llm_output("Done. [end of text] junk", "raw"), "Done.");
    assert_eq!(clean_llm_output("A<|im_end|>B</s>", "raw"), "A");
}

#[test]
fn clean_output_strips_quotes_and_lead_ins() {
    assert_eq!(clean_llm_output("\"Quoted text\"", "raw"), "Quoted text");
    assert_eq!(clean_llm_output("HERE IS THE CLEANED TEXT: \"Hi there\"", "raw"), "Hi there");
    assert_eq!(clean_llm_output("Refined transcript:  'ok'", "raw"), "ok");
    assert_eq!(clean_llm_output("\"", "raw"), "\"");
}

#[test]
fn clean_output_drops_trailing_fences() {
    assert_eq!(clean_llm_output("Line one\r\nLine two\n```\n\n```\n", "raw"), "Line one\nLine two");
}

#[test]
fn clean_output_falls_back_to_raw_text() {
    assert_eq!(clean_llm_output("   ", "raw words"), "raw words");
    assert_eq!(clean_llm_output("<think>only thinking</think>", "raw words"), "raw words");
    assert_eq!(clean_llm_output("```\n```", "raw words"), "raw words");
}

#[test]
fn archive_entries_kept() {
    assert!(archive_entry_wanted("llama-cli.exe"));
    assert!(archive_entry_wanted("ggml.DLL"));
    assert!(archive_entry_wanted("libllama.so"));
    assert!(archive_entry_wanted("libggml.dylib"));
    assert!(archive_entry_wanted("llama-cli"));
    assert!(archive_entry_wanted("LICENSE"));
    assert!(archive_entry_wanted(".hidden"));
    assert!(!archive_entry_wanted("README.md"));
    assert!(!archive_entry_wanted("libllama.so.1"));
}

#[test]
fn gguf_files() {
    assert!(is_gguf_model_file("qwen3-0.6b.gguf"));
    assert!(is_gguf_model_file("MODEL.GGUF"));
    assert!(!is_gguf_model_file("gguf"));
    assert!(!is_gguf_model_file("model.bin"));
}

#[test]
fn llama_failure_messages() {
    assert_eq!(llama_failure_message(" boom ", "out", Some(1)), "llama-cli failed: boom");
    assert_eq!(llama_failure_message("", " out ", Some(1)), "llama-cli failed: out");
    assert_eq!(llama_failure_message("", "", Some(-3)), "llama-cli failed: exit code Some(-3)");
    assert_eq!(llama_failure_message("", "", None), "llama-cli failed: exit code None");
}
