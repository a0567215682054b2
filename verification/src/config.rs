//! The application settings, their defaults and their migration.

use vstd::prelude::*;
use crate::text::str_equal;

verus! {

/// The application settings, as stored in `config.json`.
#[derive(Clone, Debug)]
pub struct AppConfig {
    pub api_key: String,
    pub prompt: String,
    pub model: String,
    pub provider: String,
    pub ollama_url: String,
    pub ollama_model: String,
    pub audio_device: String,
    pub transcription_provider: String,
    pub openai_api_key: String,
    pub openai_model: String,
    pub local_whisper_model: String,
    pub transcription_language: String,
    pub openai_refine_model: String,
    pub openrouter_api_key: String,
    pub openrouter_model: String,
    pub custom_api_url: String,
    pub custom_api_key: String,
    pub custom_api_model: String,
    pub noise_gate: bool,
    pub lm_studio_url: String,
    pub lm_studio_model: String,
    pub transcribe_key: String,
    pub notes_key: String,
    /// The hotkey that cancels a recording or a transcription in flight.
    pub cancel_key: String,
}

/// The default of `transcribe_key`, used when the stored settings lack it.
pub fn default_transcribe_key() -> (s: String)
    ensures
        s@ == "Control"@,
{
    String::from_str("Control")
}

/// The default of `notes_key`, used when the stored settings lack it.
pub fn default_notes_key() -> (s: String)
    ensures
        s@ == "Control + Win"@,
{
    String::from_str("Control + Win")
}

/// The default of `cancel_key`, used when the stored settings lack it.
pub fn default_cancel_key() -> (s: String)
    ensures
        s@ == "Escape"@,
{
    String::from_str("Escape")
}

/// The default of `model`, used when the stored settings lack it.
pub fn default_model() -> (s: String)
    ensures
        s@ == "gemini-2.0-flash"@,
{
    String::from_str("gemini-2.0-flash")
}

/// The default of `provider`, used when the stored settings lack it.
pub fn default_provider() -> (s: String)
    ensures
        s@ == "gemini"@,
{
    String::from_str("gemini")
}

/// The default of `ollama_url`, used when the stored settings lack it.
pub fn default_ollama_url() -> (s: String)
    ensures
        s@ == "http://localhost:11434"@,
{
    String::from_str("http://localhost:11434")
}

/// The default of `ollama_model`, used when the stored settings lack it.
pub fn default_ollama_model() -> (s: String)
    ensures
        s@ == "llama3"@,
{
    String::from_str("llama3")
}

/// The default of `audio_device`, used when the stored settings lack it.
pub fn default_audio_device() -> (s: String)
    ensures
        s@ == "Default"@,
{
    String::from_str("Default")
}

/// The default of `transcription_provider`, used when the stored settings lack it.
pub fn default_transcription_provider() -> (s: String)
    ensures
        s@ == "gemini"@,
{
    String::from_str("gemini")
}

/// The default of `openai_api_key`, used when the stored settings lack it.
pub fn default_openai_api_key() -> (s: String)
    ensures
        s@ == ""@,
{
    String::from_str("")
}

/// The default of `openai_model`, used when the stored settings lack it.
pub fn default_openai_model() -> (s: String)
    ensures
        s@ == "whisper-1"@,
{
    String::from_str("whisper-1")
}

/// The default of `local_whisper_model`, used when the stored settings lack it.
pub fn default_local_whisper_model() -> (s: String)
    ensures
        s@ == "base"@,
{
    String::from_str("base")
}

/// The default of `transcription_language`, used when the stored settings lack it.
pub fn default_transcription_language() -> (s: String)
    ensures
        s@ == "auto"@,
{
    String::from_str("auto")
}

/// The default of `openai_refine_model`, used when the stored settings lack it.
pub fn default_openai_refine_model() -> (s: String)
    ensures
        s@ == "gpt-4o-mini"@,
{
    String::from_str("gpt-4o-mini")
}

/// The default of `openrouter_api_key`, used when the stored settings lack it.
pub fn default_openrouter_api_key() -> (s: String)
    ensures
        s@ == ""@,
{
    String::from_str("")
}

/// The default of `openrouter_model`, used when the stored settings lack it.
pub fn default_openrouter_model() -> (s: String)
    ensures
        s@ == "google/gemini-2.5-flash"@,
{
    String::from_str("google/gemini-2.5-flash")
}

/// The default of `custom_api_url`, used when the stored settings lack it.
pub fn default_custom_api_url() -> (s: String)
    ensures
        s@ == ""@,
{
    String::from_str("")
}

/// The default of `custom_api_key`, used when the stored settings lack it.
pub fn default_custom_api_key() -> (s: String)
    ensures
        s@ == ""@,
{
    String::from_str("")
}

/// The default of `custom_api_model`, used when the stored settings lack it.
pub fn default_custom_api_model() -> (s: String)
    ensures
        s@ == ""@,
{
    String::from_str("")
}

/// The default of `noise_gate`, used when the stored settings lack it.
pub fn default_noise_gate() -> (b: bool)
    ensures
        b == false,
{
    false
}

/// The default of `lm_studio_url`, used when the stored settings lack it.
pub fn default_lm_studio_url() -> (s: String)
    ensures
        s@ == "http://localhost:1234"@,
{
    String::from_str("http://localhost:1234")
}

/// The default of `lm_studio_model`, used when the stored settings lack it.
pub fn default_lm_studio_model() -> (s: String)
    ensures
        s@ == ""@,
{
    String::from_str("")
}

/// The settings a fresh installation starts with.
pub open spec fn is_default_config(c: AppConfig) -> bool {
    &&& c.api_key@ == ""@
    &&& c.prompt@ == "Transcribe and clean up the audio. Remove filler words and format appropriately."@
    &&& c.model@ == "gemini-2.0-flash"@
    &&& c.provider@ == "gemini"@
    &&& c.ollama_url@ == "http://localhost:11434"@
    &&& c.ollama_model@ == "llama3"@
    &&& c.audio_device@ == "Default"@
    &&& c.transcription_provider@ == "gemini"@
    &&& c.openai_api_key@ == ""@
    &&& c.openai_model@ == "whisper-1"@
    &&& c.local_whisper_model@ == "base"@
    &&& c.transcription_language@ == "auto"@
    &&& c.openai_refine_model@ == "gpt-4o-mini"@
    &&& c.openrouter_api_key@ == ""@
    &&& c.openrouter_model@ == "google/gemini-2.5-flash"@
    &&& c.custom_api_url@ == ""@
    &&& c.custom_api_key@ == ""@
    &&& c.custom_api_model@ == ""@
    &&& c.noise_gate == false
    &&& c.lm_studio_url@ == "http://localhost:1234"@
    &&& c.lm_studio_model@ == ""@
    &&& c.transcribe_key@ == "Control"@
    &&& c.notes_key@ == "Control + Win"@
    &&& c.cancel_key@ == "Escape"@
}

/// The model a stored setting names after migration: the retired
/// `gemini-1.5-flash` becomes `gemini-2.0-flash`, any other stays.
pub open spec fn migrated_model(m: Seq<char>) -> Seq<char> {
    if m == "gemini-1.5-flash"@ {
        "gemini-2.0-flash"@
    } else {
        m
    }
}

/// Migration is idempotent: a migrated setting never names the retired
/// model, so migrating again changes nothing.
pub proof fn lemma_migration_idempotent(m: Seq<char>)
    ensures
        migrated_model(m) != "gemini-1.5-flash"@,
        migrated_model(migrated_model(m)) == migrated_model(m),
{
    reveal_strlit("gemini-1.5-flash");
    reveal_strlit("gemini-2.0-flash");
    assert("gemini-1.5-flash"@[7] != "gemini-2.0-flash"@[7]);
}

impl AppConfig {
    /// The settings a fresh installation starts with.
    pub fn default() -> (c: AppConfig)
        ensures
            is_default_config(c),
    {
        AppConfig {
            api_key: String::from_str(""),
            prompt: String::from_str("Transcribe and clean up the audio. Remove filler words and format appropriately."),
            model: String::from_str("gemini-2.0-flash"),
            provider: String::from_str("gemini"),
            ollama_url: String::from_str("http://localhost:11434"),
            ollama_model: String::from_str("llama3"),
            audio_device: String::from_str("Default"),
            transcription_provider: String::from_str("gemini"),
            openai_api_key: String::from_str(""),
            openai_model: String::from_str("whisper-1"),
            local_whisper_model: String::from_str("base"),
            transcription_language: String::from_str("auto"),
            openai_refine_model: String::from_str("gpt-4o-mini"),
            openrouter_api_key: String::from_str(""),
            openrouter_model: String::from_str("google/gemini-2.5-flash"),
            custom_api_url: String::from_str(""),
            custom_api_key: String::from_str(""),
            custom_api_model: String::from_str(""),
            noise_gate: false,
            lm_studio_url: String::from_str("http://localhost:1234"),
            lm_studio_model: String::from_str(""),
            transcribe_key: String::from_str("Control"),
            notes_key: String::from_str("Control + Win"),
            cancel_key: String::from_str("Escape"),
        }
    }

    /// Replaces the retired model `gemini-1.5-flash` by `gemini-2.0-flash`.
    /// Returns whether the settings changed (and must be saved again); all
    /// other settings are kept.
    pub fn migrate_deprecated_model(&mut self) -> (changed: bool)
        ensures
            changed == (old(self).model@ == "gemini-1.5-flash"@),
            final(self).model@ == migrated_model(old(self).model@),
            *final(self) == (AppConfig { model: final(self).model, ..*old(self) }),
    {
        if str_equal(self.model.as_str(), "gemini-1.5-flash") {
            self.model = String::from_str("gemini-2.0-flash");
            true
        } else {
            false
        }
    }
}

} // verus!
