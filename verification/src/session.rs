//! The dictation session: the application's status and recording flags,
//! which services a dictation goes through, and how hotkeys and tray menu
//! entries map to actions.

use vstd::prelude::*;
use crate::config::AppConfig;
use crate::hotkey::{HotkeyEvent, RecordingType};
use crate::text::{str_equal, trim, trim_seq, chars_of, starts_with, starts_with_seq};

verus! {

/// The status shown while nothing happens.
pub const STATUS_IDLE: &'static str = "Idle";

/// The status shown while recording.
pub const STATUS_RECORDING: &'static str = "Recording";

/// The status shown while a recording is transcribed.
pub const STATUS_TRANSCRIBING: &'static str = "Transcribing";

/// The status shown while the text is pasted into the focused application.
pub const STATUS_PASTING: &'static str = "Pasting";

/// The overlay window is hidden when the status becomes idle or an error.
pub open spec fn overlay_hidden_for(status: Seq<char>) -> bool {
    status == "Idle"@ || starts_with_seq(status, "Error"@)
}

/// Whether showing `status` hides the overlay window.
pub fn hides_overlay(status: &str) -> (r: bool)
    ensures
        r == overlay_hidden_for(status@),
{
    let s = chars_of(status);
    let e = chars_of("Error");
    str_equal(status, "Idle") || starts_with(&s, &e)
}

/// The error status for a failure message.
pub open spec fn error_status_spec(message: Seq<char>) -> Seq<char> {
    "Error: "@ + message
}

/// The error status for a failure message.
pub fn error_status(message: &str) -> (r: String)
    ensures
        r@ == error_status_spec(message@),
{
    let mut r = String::from_str("Error: ");
    r.append(message);
    r
}

/// The application's dictation state: whether a recording runs, whether
/// the transcription in flight was cancelled, and the status shown.
pub struct SessionState {
    pub is_recording: bool,
    pub transcribe_cancelled: bool,
    pub status: String,
}

/// The dictation state as plain values.
pub struct SessionView {
    pub is_recording: bool,
    pub transcribe_cancelled: bool,
    pub status: Seq<char>,
}

impl View for SessionState {
    type V = SessionView;

    open spec fn view(&self) -> SessionView {
        SessionView {
            is_recording: self.is_recording,
            transcribe_cancelled: self.transcribe_cancelled,
            status: self.status@,
        }
    }
}

/// What a cancellation asks of the recorder.
#[derive(Debug, Clone, Copy, PartialEq, Eq, Structural)]
pub enum CancelEffect {
    /// Nothing was recording; only a transcription in flight is abandoned.
    NothingRecording,
    /// The running recording must be cancelled.
    CancelRecorder,
}

/// The kinds of [`TranscriptionOutcome`].
#[derive(Debug, Clone, Copy, PartialEq, Eq, Structural)]
pub enum OutcomeKind {
    Discard,
    NothingToPaste,
    Paste,
    ShowError,
}

/// What to do with a finished transcription.
#[derive(Debug, Clone)]
pub enum TranscriptionOutcome {
    /// The dictation was cancelled meanwhile: the text is dropped.
    Discard,
    /// Nothing was said: there is nothing to paste.
    NothingToPaste,
    /// The text is pasted into the focused application.
    Paste(String),
    /// The transcription failed; the error status is shown.
    ShowError,
}

impl TranscriptionOutcome {
    /// Which kind of outcome this is.
    pub open spec fn kind(self) -> OutcomeKind {
        match self {
            TranscriptionOutcome::Discard => OutcomeKind::Discard,
            TranscriptionOutcome::NothingToPaste => OutcomeKind::NothingToPaste,
            TranscriptionOutcome::Paste(_) => OutcomeKind::Paste,
            TranscriptionOutcome::ShowError => OutcomeKind::ShowError,
        }
    }
}

/// A transcription result as plain values.
pub open spec fn result_view(r: Result<String, String>) -> Result<Seq<char>, Seq<char>> {
    match r {
        Ok(t) => Ok(t@),
        Err(e) => Err(e@),
    }
}

/// Ending a dictation: when a recording runs, it stops, any earlier
/// cancellation is forgotten and the status becomes "Transcribing".
pub open spec fn begin_transcription_spec(v: SessionView) -> (SessionView, bool) {
    if v.is_recording {
        (SessionView { is_recording: false, transcribe_cancelled: false, status: STATUS_TRANSCRIBING@ }, true)
    } else {
        (v, false)
    }
}

/// Cancelling: any transcription in flight is abandoned; a running
/// recording stops and the status becomes idle; otherwise a "Transcribing"
/// status returns to idle.
pub open spec fn cancel_spec(v: SessionView) -> (SessionView, CancelEffect) {
    if v.is_recording {
        (
            SessionView { is_recording: false, transcribe_cancelled: true, status: STATUS_IDLE@ },
            CancelEffect::CancelRecorder,
        )
    } else {
        (
            SessionView {
                is_recording: false,
                transcribe_cancelled: true,
                status: if v.status == STATUS_TRANSCRIBING@ { STATUS_IDLE@ } else { v.status },
            },
            CancelEffect::NothingRecording,
        )
    }
}

/// What happens to a finished transcription: dropped when the dictation was
/// cancelled meanwhile (status idle), nothing when it is empty (status
/// idle), pasted otherwise (status "Pasting"); a failure shows its error
/// status.
pub open spec fn finish_spec(v: SessionView, result: Result<Seq<char>, Seq<char>>) -> (SessionView, OutcomeKind) {
    let (status, kind) = if v.transcribe_cancelled {
        (STATUS_IDLE@, OutcomeKind::Discard)
    } else {
        match result {
            Ok(text) => if text.len() == 0 {
                (STATUS_IDLE@, OutcomeKind::NothingToPaste)
            } else {
                (STATUS_PASTING@, OutcomeKind::Paste)
            },
            Err(e) => (error_status_spec(e), OutcomeKind::ShowError),
        }
    };
    (SessionView { status, ..v }, kind)
}

/// After pasting: idle on success, the error status on failure.
pub open spec fn paste_finished_spec(v: SessionView, result: Result<(), Seq<char>>) -> SessionView {
    match result {
        Ok(_) => SessionView { status: STATUS_IDLE@, ..v },
        Err(e) => SessionView { status: error_status_spec(e), ..v },
    }
}

impl SessionState {
    /// Idle, not recording, nothing cancelled.
    pub fn new() -> (s: SessionState)
        ensures
            !s.is_recording,
            !s.transcribe_cancelled,
            s.status@ == STATUS_IDLE@,
    {
        SessionState {
            is_recording: false,
            transcribe_cancelled: false,
            status: String::from_str(STATUS_IDLE),
        }
    }

    /// Shows a status; returns whether the overlay window is to be hidden.
    pub fn set_status(&mut self, status: &str) -> (hide_overlay: bool)
        ensures
            final(self)@ == (SessionView { status: status@, ..old(self)@ }),
            hide_overlay == overlay_hidden_for(status@),
    {
        self.status = String::from_str(status);
        hides_overlay(status)
    }

    /// Starting a dictation while one records does nothing.
    pub fn should_start(&self) -> (r: bool)
        ensures
            r == !self.is_recording,
    {
        !self.is_recording
    }

    /// The recorder has started: the session records, with the status
    /// "Recording" (which keeps the overlay shown).
    pub fn recording_started(&mut self) -> (hide_overlay: bool)
        ensures
            final(self)@ == (SessionView {
                is_recording: true,
                status: STATUS_RECORDING@,
                ..old(self)@
            }),
            !hide_overlay,
    {
        proof {
            reveal_strlit("Recording");
            reveal_strlit("Idle");
            reveal_strlit("Error");
            assert(STATUS_RECORDING@ == "Recording"@);
            assert(STATUS_RECORDING@.subrange(0, 5)[0] != "Error"@[0]);
            assert(!overlay_hidden_for(STATUS_RECORDING@));
        }
        self.is_recording = true;
        self.set_status(STATUS_RECORDING)
    }

    /// Ending a dictation; returns whether there was a recording to end.
    pub fn begin_transcription(&mut self) -> (stopped: bool)
        ensures
            (final(self)@, stopped) == begin_transcription_spec(old(self)@),
    {
        if !self.is_recording {
            return false;
        }
        self.is_recording = false;
        self.transcribe_cancelled = false;
        self.set_status(STATUS_TRANSCRIBING);
        true
    }

    /// Cancelling the dictation.
    pub fn cancel(&mut self) -> (effect: CancelEffect)
        ensures
            (final(self)@, effect) == cancel_spec(old(self)@),
    {
        self.transcribe_cancelled = true;
        if !self.is_recording {
            if str_equal(self.status.as_str(), STATUS_TRANSCRIBING) {
                self.set_status(STATUS_IDLE);
            }
            return CancelEffect::NothingRecording;
        }
        self.is_recording = false;
        self.set_status(STATUS_IDLE);
        CancelEffect::CancelRecorder
    }

    /// Decides what happens to a finished transcription; a pasted text is
    /// the transcript itself.
    pub fn finish_transcription(&mut self, result: Result<String, String>) -> (o:
        TranscriptionOutcome)
        ensures
            (final(self)@, o.kind()) == finish_spec(old(self)@, result_view(result)),
            o matches TranscriptionOutcome::Paste(t) ==> (result matches Ok(text) && t@ == text@),
    {
        if self.transcribe_cancelled {
            self.set_status(STATUS_IDLE);
            return TranscriptionOutcome::Discard;
        }
        match result {
            Ok(text) => {
                if text.as_str().unicode_len() == 0 {
                    self.set_status(STATUS_IDLE);
                    TranscriptionOutcome::NothingToPaste
                } else {
                    self.set_status(STATUS_PASTING);
                    TranscriptionOutcome::Paste(text)
                }
            },
            Err(e) => {
                let status = error_status(e.as_str());
                self.set_status(status.as_str());
                TranscriptionOutcome::ShowError
            },
        }
    }

    /// After pasting; returns whether pasting failed.
    pub fn paste_finished(&mut self, result: Result<(), String>) -> (failed: bool)
        ensures
            failed == (result is Err),
            final(self)@ == paste_finished_spec(
                old(self)@,
                match result {
                    Ok(u) => Ok(u),
                    Err(e) => Err(e@),
                },
            ),
    {
        match result {
            Ok(()) => {
                self.set_status(STATUS_IDLE);
                false
            },
            Err(e) => {
                let status = error_status(e.as_str());
                self.set_status(status.as_str());
                true
            },
        }
    }

    /// Stopping a voice-note recording: an error when nothing records,
    /// otherwise the session stops recording.
    pub fn end_note_recording(&mut self) -> (r: Result<(), String>)
        ensures
            r is Ok <==> old(self).is_recording,
            r matches Err(e) ==> e@ == "Not recording"@,
            final(self)@ == (SessionView { is_recording: false, ..old(self)@ }),
    {
        if !self.is_recording {
            return Err(String::from_str("Not recording"));
        }
        self.is_recording = false;
        Ok(())
    }

    /// The microphone cannot be tested during a recording.
    pub fn check_mic_test_allowed(&self) -> (r: Result<(), String>)
        ensures
            r is Ok <==> !self.is_recording,
            r matches Err(e) ==> e@ == "Cannot test microphone while recording is in progress"@,
    {
        if self.is_recording {
            Err(String::from_str("Cannot test microphone while recording is in progress"))
        } else {
            Ok(())
        }
    }
}

/// A dictation cancelled after its recording ended is never pasted: when
/// the transcription comes back, whatever it holds, it is dropped and the
/// status is idle.
pub proof fn lemma_cancelled_dictation_never_pasted(
    v: SessionView,
    result: Result<Seq<char>, Seq<char>>,
)
    ensures
        ({
            let (stopped, _) = begin_transcription_spec(v);
            let (cancelled, _) = cancel_spec(stopped);
            let (finished, kind) = finish_spec(cancelled, result);
            kind == OutcomeKind::Discard && finished.status == STATUS_IDLE@ && !finished.is_recording
        }),
{
}

/// A new dictation forgets an earlier cancellation: once its recording
/// ends, a non-empty transcript is pasted.
pub proof fn lemma_new_dictation_not_affected_by_old_cancel(v: SessionView, text: Seq<char>)
    requires
        v.is_recording,
        text.len() > 0,
    ensures
        ({
            let (stopped, did_stop) = begin_transcription_spec(v);
            let (finished, kind) = finish_spec(stopped, Ok(text));
            did_stop && kind == OutcomeKind::Paste && finished.status == STATUS_PASTING@
        }),
{
}

/// Cancelling is idempotent: a second cancellation changes nothing more and
/// finds nothing recording.
pub proof fn lemma_cancel_idempotent(v: SessionView)
    ensures
        cancel_spec(cancel_spec(v).0).0 == cancel_spec(v).0,
        cancel_spec(cancel_spec(v).0).1 == CancelEffect::NothingRecording,
{
    reveal_strlit("Idle");
    reveal_strlit("Transcribing");
}

/// The error status for settings that lack what the chosen services need,
/// checked in this order.
pub open spec fn missing_setting_spec(c: AppConfig) -> Option<Seq<char>> {
    let tx = c.transcription_provider@;
    let p = c.provider@;
    if (tx == "openai"@ || p == "openai"@) && trim_seq(c.openai_api_key@).len() == 0 {
        Some("Error: Missing OpenAI Key"@)
    } else if (tx == "gemini"@ || p == "gemini"@) && trim_seq(c.api_key@).len() == 0 {
        Some("Error: Missing Gemini Key"@)
    } else if p == "openrouter"@ && trim_seq(c.openrouter_api_key@).len() == 0 {
        Some("Error: Missing OpenRouter Key"@)
    } else if p == "custom"@ && trim_seq(c.custom_api_url@).len() == 0 {
        Some("Error: Missing Custom URL"@)
    } else if (tx == "lm_studio"@ || p == "lm_studio"@) && trim_seq(c.lm_studio_url@).len() == 0 {
        Some("Error: Missing LM Studio URL"@)
    } else {
        None
    }
}

/// The error status when the settings lack a key or URL that the chosen
/// transcription or refinement service needs (blank counts as missing).
pub fn missing_setting(c: &AppConfig) -> (r: Option<String>)
    ensures
        r matches Some(s) ==> missing_setting_spec(*c) == Some(s@),
        r is None ==> missing_setting_spec(*c) is None,
{
    let tx = c.transcription_provider.as_str();
    let p = c.provider.as_str();
    if (str_equal(tx, "openai") || str_equal(p, "openai")) && trim(c.openai_api_key.as_str()).as_str().unicode_len() == 0 {
        Some(String::from_str("Error: Missing OpenAI Key"))
    } else if (str_equal(tx, "gemini") || str_equal(p, "gemini")) && trim(c.api_key.as_str()).as_str().unicode_len() == 0 {
        Some(String::from_str("Error: Missing Gemini Key"))
    } else if str_equal(p, "openrouter") && trim(c.openrouter_api_key.as_str()).as_str().unicode_len() == 0 {
        Some(String::from_str("Error: Missing OpenRouter Key"))
    } else if str_equal(p, "custom") && trim(c.custom_api_url.as_str()).as_str().unicode_len() == 0 {
        Some(String::from_str("Error: Missing Custom URL"))
    } else if (str_equal(tx, "lm_studio") || str_equal(p, "lm_studio")) && trim(c.lm_studio_url.as_str()).as_str().unicode_len() == 0 {
        Some(String::from_str("Error: Missing LM Studio URL"))
    } else {
        None
    }
}

/// The offline model a local transcription provider uses, as (model type,
/// model id): Parakeet for `local_parakeet`, the configured Whisper size
/// for `local_whisper`.
pub open spec fn local_model_spec(provider: Seq<char>, whisper_model: Seq<char>) -> Option<(Seq<char>, Seq<char>)> {
    if provider == "local_parakeet"@ {
        Some(("parakeet"@, "parakeet_v3"@))
    } else if provider == "local_whisper"@ {
        Some(("whisper"@, "whisper_"@ + whisper_model))
    } else {
        None
    }
}

/// The offline model a local transcription provider uses, as (model type,
/// model id).
pub fn local_model(provider: &str, whisper_model: &str) -> (r: Option<(&'static str, String)>)
    ensures
        r matches Some(m) ==> local_model_spec(provider@, whisper_model@) == Some((m.0@, m.1@)),
        r is None ==> local_model_spec(provider@, whisper_model@) is None,
{
    if str_equal(provider, "local_parakeet") {
        Some(("parakeet", String::from_str("parakeet_v3")))
    } else if str_equal(provider, "local_whisper") {
        let mut id = String::from_str("whisper_");
        id.append(whisper_model);
        Some(("whisper", id))
    } else {
        None
    }
}

/// The instruction that asks Gemini for a verbatim transcript.
pub const VERBATIM_PROMPT: &'static str = "Transcribe the audio verbatim. Keep all original words, sounds, and filler sounds.";

/// The Gemini model used for verbatim transcripts.
pub const VERBATIM_MODEL: &'static str = "gemini-2.0-flash";

/// The error when the Parakeet model is chosen but not downloaded.
pub const PARAKEET_MISSING: &'static str = "Model files are not downloaded. Please download the Nvidia Parakeet model in Settings.";

/// The service that turns a recording into text, with what is handed to it.
#[derive(Debug, Clone)]
pub enum Transcriber {
    /// The bundled sherpa-onnx script with a downloaded model.
    LocalSherpa { model_type: String, model_id: String },
    /// The `whisper` command line with a Whisper model size.
    LocalWhisperCli { model: String },
    /// Parakeet was chosen but is not downloaded: fails with
    /// [`PARAKEET_MISSING`].
    ModelMissing,
    /// OpenAI's transcription API.
    OpenAi { api_key: String, model: String },
    /// An LM Studio server.
    LmStudio { url: String },
    /// Gemini, with an instruction and a model.
    Gemini { api_key: String, prompt: String, model: String },
}

/// How a dictation is transcribed, and whether the transcript is refined
/// afterwards.
#[derive(Debug, Clone)]
pub struct DictationPlan {
    pub transcriber: Transcriber,
    pub refine_after: bool,
}

/// The transcriber for a transcription provider; `api_key`, `openai_key`
/// and `lm_url` are the keys and URL handed on. Local providers use the
/// sherpa-onnx engine when their model is downloaded; otherwise Whisper
/// falls back to the `whisper` command line and Parakeet fails. Any other
/// provider is Gemini, with `gemini_prompt` and `gemini_model`.
pub open spec fn transcriber_matches(
    t: Transcriber,
    c: AppConfig,
    local_model_downloaded: bool,
    api_key: Seq<char>,
    openai_key: Seq<char>,
    lm_url: Seq<char>,
    gemini_prompt: Seq<char>,
    gemini_model: Seq<char>,
) -> bool {
    let tx = c.transcription_provider@;
    if tx == "local_whisper"@ || tx == "local_parakeet"@ {
        let (model_type, model_id) = local_model_spec(tx, c.local_whisper_model@).unwrap();
        if local_model_downloaded {
            t matches Transcriber::LocalSherpa { model_type: mt, model_id: mi } && mt@ == model_type
                && mi@ == model_id
        } else if tx == "local_whisper"@ {
            t matches Transcriber::LocalWhisperCli { model } && model@ == c.local_whisper_model@
        } else {
            t == Transcriber::ModelMissing
        }
    } else if tx == "openai"@ {
        t matches Transcriber::OpenAi { api_key: k, model } && k@ == openai_key && model@
            == c.openai_model@
    } else if tx == "lm_studio"@ {
        t matches Transcriber::LmStudio { url } && url@ == lm_url
    } else {
        t matches Transcriber::Gemini { api_key: k, prompt, model } && k@ == api_key && prompt@
            == gemini_prompt && model@ == gemini_model
    }
}

fn choose_transcriber(
    c: &AppConfig,
    local_model_downloaded: bool,
    api_key: &str,
    openai_key: &str,
    lm_url: &str,
    gemini_prompt: &str,
    gemini_model: &str,
) -> (t: Transcriber)
    ensures
        transcriber_matches(
            t,
            *c,
            local_model_downloaded,
            api_key@,
            openai_key@,
            lm_url@,
            gemini_prompt@,
            gemini_model@,
        ),
{
    let tx = c.transcription_provider.as_str();
    if str_equal(tx, "local_whisper") || str_equal(tx, "local_parakeet") {
        let m = local_model(tx, c.local_whisper_model.as_str());
        match m {
            Some((model_type, model_id)) => {
                if local_model_downloaded {
                    Transcriber::LocalSherpa { model_type: String::from_str(model_type), model_id }
                } else if str_equal(tx, "local_whisper") {
                    Transcriber::LocalWhisperCli { model: c.local_whisper_model.clone() }
                } else {
                    Transcriber::ModelMissing
                }
            },
            None => Transcriber::ModelMissing,
        }
    } else if str_equal(tx, "openai") {
        Transcriber::OpenAi { api_key: String::from_str(openai_key), model: c.openai_model.clone() }
    } else if str_equal(tx, "lm_studio") {
        Transcriber::LmStudio { url: String::from_str(lm_url) }
    } else {
        Transcriber::Gemini {
            api_key: String::from_str(api_key),
            prompt: String::from_str(gemini_prompt),
            model: String::from_str(gemini_model),
        }
    }
}

/// The plan of a dictation. Keys and URLs are trimmed. Every transcript is
/// refined afterwards, except with Gemini: when Gemini also refines
/// (provider `gemini`) it does both in one call with the user's prompt and
/// model, without a refinement step; with provider `none` it transcribes
/// verbatim and nothing is refined; with any other refinement provider it
/// transcribes verbatim and the refinement follows.
pub open spec fn dictation_plan_matches(p: DictationPlan, c: AppConfig, local_model_downloaded: bool) -> bool {
    let tx = c.transcription_provider@;
    let provider = c.provider@;
    let local_or_api = tx == "local_whisper"@ || tx == "local_parakeet"@ || tx == "openai"@ || tx
        == "lm_studio"@;
    let gemini_does_all = provider == "gemini"@;
    &&& transcriber_matches(
        p.transcriber,
        c,
        local_model_downloaded,
        trim_seq(c.api_key@),
        trim_seq(c.openai_api_key@),
        trim_seq(c.lm_studio_url@),
        if gemini_does_all { c.prompt@ } else { VERBATIM_PROMPT@ },
        if gemini_does_all { c.model@ } else { VERBATIM_MODEL@ },
    )
    &&& p.refine_after == (local_or_api || (provider != "gemini"@ && provider != "none"@))
}

/// How a dictation is transcribed and whether its transcript is refined;
/// `local_model_downloaded` says whether the local provider's model is on
/// disk (it matters only for local providers).
pub fn plan_dictation(c: &AppConfig, local_model_downloaded: bool) -> (p: DictationPlan)
    ensures
        dictation_plan_matches(p, *c, local_model_downloaded),
{
    let api_key = trim(c.api_key.as_str());
    let openai_key = trim(c.openai_api_key.as_str());
    let lm_url = trim(c.lm_studio_url.as_str());
    let provider = c.provider.as_str();
    let gemini_does_all = str_equal(provider, "gemini");
    let (prompt, model) = if gemini_does_all {
        (c.prompt.as_str(), c.model.as_str())
    } else {
        (VERBATIM_PROMPT, VERBATIM_MODEL)
    };
    let transcriber = choose_transcriber(
        c,
        local_model_downloaded,
        api_key.as_str(),
        openai_key.as_str(),
        lm_url.as_str(),
        prompt,
        model,
    );
    let tx = c.transcription_provider.as_str();
    let local_or_api = str_equal(tx, "local_whisper") || str_equal(tx, "local_parakeet") || str_equal(
        tx,
        "openai",
    ) || str_equal(tx, "lm_studio");
    let refine_after = local_or_api || (!gemini_does_all && !str_equal(provider, "none"));
    DictationPlan { transcriber, refine_after }
}

/// How a voice note is transcribed: like a dictation, but with the settings
/// as stored (untrimmed) and always verbatim with Gemini; a voice note is
/// never refined here.
pub fn plan_note_transcription(c: &AppConfig, local_model_downloaded: bool) -> (t: Transcriber)
    ensures
        transcriber_matches(
            t,
            *c,
            local_model_downloaded,
            c.api_key@,
            c.openai_api_key@,
            c.lm_studio_url@,
            VERBATIM_PROMPT@,
            VERBATIM_MODEL@,
        ),
{
    choose_transcriber(
        c,
        local_model_downloaded,
        c.api_key.as_str(),
        c.openai_api_key.as_str(),
        c.lm_studio_url.as_str(),
        VERBATIM_PROMPT,
        VERBATIM_MODEL,
    )
}

/// The refinement service for a transcript, with what is handed to it
/// (besides the transcript, the configured prompt and language).
#[derive(Debug, Clone)]
pub enum Refiner {
    /// An empty transcript refines to the empty text.
    EmptyText,
    Ollama { url: String, model: String },
    Gemini { api_key: String, model: String },
    OpenAiCompatible { url: String, api_key: String, model: String },
    /// The offline model run with `llama-cli`, from the model directory
    /// `model_id`.
    LocalLlm { model_id: String },
    /// No refinement: the transcript is kept as it is.
    Unchanged,
}

/// The model directory of the offline refinement model (Qwen3 0.6B).
pub const LOCAL_LLM_MODEL: &'static str = "qwen3_0.6b";

/// The refinement service for a transcript, per the configured provider.
pub open spec fn refiner_matches(r: Refiner, raw_text: Seq<char>, c: AppConfig) -> bool {
    let p = c.provider@;
    if raw_text.len() == 0 {
        r == Refiner::EmptyText
    } else if p == "ollama"@ {
        r matches Refiner::Ollama { url, model } && url@ == c.ollama_url@ && model@ == c.ollama_model@
    } else if p == "gemini"@ {
        r matches Refiner::Gemini { api_key, model } && api_key@ == c.api_key@ && model@ == c.model@
    } else if p == "openai"@ {
        r matches Refiner::OpenAiCompatible { url, api_key, model } && url@
            == "https://api.openai.com/v1"@ && api_key@ == c.openai_api_key@ && model@
            == c.openai_refine_model@
    } else if p == "openrouter"@ {
        r matches Refiner::OpenAiCompatible { url, api_key, model } && url@
            == "https://openrouter.ai/api/v1"@ && api_key@ == c.openrouter_api_key@ && model@
            == c.openrouter_model@
    } else if p == "custom"@ {
        r matches Refiner::OpenAiCompatible { url, api_key, model } && url@ == c.custom_api_url@
            && api_key@ == c.custom_api_key@ && model@ == c.custom_api_model@
    } else if p == "lm_studio"@ {
        r matches Refiner::OpenAiCompatible { url, api_key, model } && url@ == c.lm_studio_url@
            && api_key@.len() == 0 && model@ == c.lm_studio_model@
    } else if p == "local_llm"@ {
        r matches Refiner::LocalLlm { model_id } && model_id@ == LOCAL_LLM_MODEL@
    } else {
        r == Refiner::Unchanged
    }
}

/// The refinement service for a transcript, per the configured provider.
pub fn plan_refinement(raw_text: &str, c: &AppConfig) -> (r: Refiner)
    ensures
        refiner_matches(r, raw_text@, *c),
{
    if raw_text.unicode_len() == 0 {
        return Refiner::EmptyText;
    }
    let p = c.provider.as_str();
    if str_equal(p, "ollama") {
        Refiner::Ollama { url: c.ollama_url.clone(), model: c.ollama_model.clone() }
    } else if str_equal(p, "gemini") {
        Refiner::Gemini { api_key: c.api_key.clone(), model: c.model.clone() }
    } else if str_equal(p, "openai") {
        Refiner::OpenAiCompatible {
            url: String::from_str("https://api.openai.com/v1"),
            api_key: c.openai_api_key.clone(),
            model: c.openai_refine_model.clone(),
        }
    } else if str_equal(p, "openrouter") {
        Refiner::OpenAiCompatible {
            url: String::from_str("https://openrouter.ai/api/v1"),
            api_key: c.openrouter_api_key.clone(),
            model: c.openrouter_model.clone(),
        }
    } else if str_equal(p, "custom") {
        Refiner::OpenAiCompatible {
            url: c.custom_api_url.clone(),
            api_key: c.custom_api_key.clone(),
            model: c.custom_api_model.clone(),
        }
    } else if str_equal(p, "lm_studio") {
        Refiner::OpenAiCompatible {
            url: c.lm_studio_url.clone(),
            api_key: String::new(),
            model: c.lm_studio_model.clone(),
        }
    } else if str_equal(p, "local_llm") {
        Refiner::LocalLlm { model_id: String::from_str(LOCAL_LLM_MODEL) }
    } else {
        Refiner::Unchanged
    }
}

/// What the application does in answer to a hotkey event.
#[derive(Debug, Clone, Copy, PartialEq, Eq, Structural)]
pub enum AppAction {
    StartDictation,
    StopDictation,
    CancelRecording,
    /// Bring the main window to the front.
    FocusMainWindow,
    /// Ask the interface to open the voice-note title dialog.
    OpenNoteTitleDialog,
    /// Tell the interface that the voice-note recording was cancelled.
    NoteRecordingCancelled,
}

/// The actions for a hotkey event, in order.
pub open spec fn hotkey_actions_spec(event: HotkeyEvent, is_recording: bool) -> Seq<AppAction> {
    match event {
        HotkeyEvent::Pressed(RecordingType::Transcribe) => seq![AppAction::StartDictation],
        HotkeyEvent::Pressed(RecordingType::Notes) => seq![
            AppAction::FocusMainWindow,
            AppAction::OpenNoteTitleDialog,
        ],
        HotkeyEvent::Released(RecordingType::Transcribe) => seq![AppAction::StopDictation],
        HotkeyEvent::Released(RecordingType::Notes) => Seq::empty(),
        HotkeyEvent::Cancelled(RecordingType::Transcribe) => seq![AppAction::CancelRecording],
        HotkeyEvent::Cancelled(RecordingType::Notes) => if is_recording {
            seq![AppAction::CancelRecording, AppAction::NoteRecordingCancelled]
        } else {
            Seq::empty()
        },
        HotkeyEvent::GlobalCancel => if is_recording {
            seq![AppAction::CancelRecording, AppAction::NoteRecordingCancelled]
        } else {
            seq![AppAction::NoteRecordingCancelled]
        },
    }
}

/// What the hotkeys do to dictation: releasing the transcribe hotkey
/// stops the dictation and does nothing else; a dictation is stopped only
/// by that release and started only by the press of the transcribe hotkey;
/// the notes hotkey never starts or stops a dictation.
pub proof fn lemma_hotkey_dictation_actions(event: HotkeyEvent, is_recording: bool)
    ensures
        event == HotkeyEvent::Released(RecordingType::Transcribe) ==> hotkey_actions_spec(
            event,
            is_recording,
        ) == seq![AppAction::StopDictation],
        hotkey_actions_spec(event, is_recording).contains(AppAction::StopDictation) <==> event
            == HotkeyEvent::Released(RecordingType::Transcribe),
        hotkey_actions_spec(event, is_recording).contains(AppAction::StartDictation) <==> event
            == HotkeyEvent::Pressed(RecordingType::Transcribe),
{
    let a = hotkey_actions_spec(event, is_recording);
    match event {
        HotkeyEvent::Pressed(RecordingType::Transcribe) => {
            assert(a[0] == AppAction::StartDictation);
        },
        HotkeyEvent::Released(RecordingType::Transcribe) => {
            assert(a[0] == AppAction::StopDictation);
        },
        _ => {},
    }
}

/// The actions for a hotkey event: the transcribe hotkey drives a
/// dictation; the notes hotkey opens the voice-note dialog (its release
/// does nothing, the interface controls the note); cancelling stops a
/// running recording.
pub fn hotkey_actions(event: HotkeyEvent, is_recording: bool) -> (r: Vec<AppAction>)
    ensures
        r@ == hotkey_actions_spec(event, is_recording),
{
    let mut r: Vec<AppAction> = Vec::new();
    match event {
        HotkeyEvent::Pressed(RecordingType::Transcribe) => {
            r.push(AppAction::StartDictation);
        },
        HotkeyEvent::Pressed(RecordingType::Notes) => {
            r.push(AppAction::FocusMainWindow);
            r.push(AppAction::OpenNoteTitleDialog);
        },
        HotkeyEvent::Released(RecordingType::Transcribe) => {
            r.push(AppAction::StopDictation);
        },
        HotkeyEvent::Released(RecordingType::Notes) => {},
        HotkeyEvent::Cancelled(RecordingType::Transcribe) => {
            r.push(AppAction::CancelRecording);
        },
        HotkeyEvent::Cancelled(RecordingType::Notes) => {
            if is_recording {
                r.push(AppAction::CancelRecording);
                r.push(AppAction::NoteRecordingCancelled);
            }
        },
        HotkeyEvent::GlobalCancel => {
            if is_recording {
                r.push(AppAction::CancelRecording);
            }
            r.push(AppAction::NoteRecordingCancelled);
        },
    }
    assert(r@ =~= hotkey_actions_spec(event, is_recording));
    r
}

/// What a tray menu entry does.
#[derive(Debug, Clone, Copy, PartialEq, Eq, Structural)]
pub enum TrayAction {
    /// Bring the main window up on the dashboard tab.
    ShowDashboard,
    /// Bring the main window up on the settings tab.
    ShowSettings,
    Exit,
    Nothing,
}

/// What the tray menu entry with id `id` does.
pub fn tray_menu_action(id: &str) -> (a: TrayAction)
    ensures
        a == (if id@ == "home"@ {
            TrayAction::ShowDashboard
        } else if id@ == "settings"@ {
            TrayAction::ShowSettings
        } else if id@ == "exit"@ {
            TrayAction::Exit
        } else {
            TrayAction::Nothing
        }),
{
    if str_equal(id, "home") {
        TrayAction::ShowDashboard
    } else if str_equal(id, "settings") {
        TrayAction::ShowSettings
    } else if str_equal(id, "exit") {
        TrayAction::Exit
    } else {
        TrayAction::Nothing
    }
}

/// A name occurs in a list of names.
pub open spec fn listed(names: Seq<Seq<char>>, n: Seq<char>) -> bool {
    exists|i: int| 0 <= i < names.len() && names[i] == n
}

/// The device list: `"Default"` first, then each device name in the order
/// found, skipping names already listed.
pub open spec fn device_list_spec(found: Seq<Seq<char>>) -> Seq<Seq<char>>
    decreases found.len(),
{
    if found.len() == 0 {
        seq!["Default"@]
    } else {
        let prev = device_list_spec(found.drop_last());
        if listed(prev, found.last()) {
            prev
        } else {
            prev.push(found.last())
        }
    }
}

fn is_listed(names: &Vec<String>, n: &String) -> (r: bool)
    ensures
        r == listed(names@.map_values(|s: String| s@), n@),
{
    let ghost v = names@.map_values(|s: String| s@);
    let mut i: usize = 0;
    while i < names.len()
        invariant
            i <= names@.len(),
            v == names@.map_values(|s: String| s@),
            forall|k: int| 0 <= k < i ==> v[k] != n@,
        decreases names@.len() - i,
    {
        if str_equal(names[i].as_str(), n.as_str()) {
            assert(v[i as int] == n@);
            return true;
        }
        i = i + 1;
    }
    false
}

/// The input devices offered in the settings: `"Default"` first, then the
/// names of the devices found, without repeats.
pub fn audio_device_list(found: &Vec<String>) -> (r: Vec<String>)
    ensures
        r@.map_values(|s: String| s@) == device_list_spec(found@.map_values(|s: String| s@)),
{
    let ghost fv = found@.map_values(|s: String| s@);
    let mut r: Vec<String> = Vec::new();
    r.push(String::from_str("Default"));
    assert(r@.map_values(|s: String| s@) =~= device_list_spec(fv.subrange(0, 0)));
    let mut i: usize = 0;
    while i < found.len()
        invariant
            i <= found@.len(),
            fv == found@.map_values(|s: String| s@),
            r@.map_values(|s: String| s@) == device_list_spec(fv.subrange(0, i as int)),
        decreases found@.len() - i,
    {
        let ghost before = r@;
        proof {
            assert(fv.subrange(0, i + 1).drop_last() =~= fv.subrange(0, i as int));
            assert(fv.subrange(0, i + 1).last() == found@[i as int]@);
        }
        if !is_listed(&r, &found[i]) {
            r.push(found[i].clone());
            assert(r@.map_values(|s: String| s@) =~= before.map_values(|s: String| s@).push(
                found@[i as int]@,
            ));
        }
        i = i + 1;
    }
    assert(fv.subrange(0, found@.len() as int) =~= fv);
    r
}

/// The greeting of the demonstration command.
pub fn greet(name: &str) -> (r: String)
    ensures
        r@ == "Hello, "@ + name@ + "! You've been greeted from Rust!"@,
{
    let mut r = String::from_str("Hello, ");
    r.append(name);
    r.append("! You've been greeted from Rust!");
    r
}

} // verus!
