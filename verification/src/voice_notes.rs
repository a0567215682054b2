//! Voice notes: their records and the names of their audio files.

use vstd::prelude::*;
use crate::text::{i64_to_string, signed_decimal, str_equal};

verus! {

/// A stored voice note.
#[derive(Clone, Debug)]
pub struct VoiceNote {
    pub id: i64,
    pub title: String,
    pub transcription: String,
    pub audio_path: String,
    pub duration_seconds: Option<i32>,
    pub created_at: String,
    pub updated_at: String,
}

/// What the interface sends to create a voice note.
#[derive(Clone, Debug)]
pub struct CreateVoiceNoteRequest {
    pub title: String,
    pub transcription: String,
    pub audio_source_path: String,
}

/// The record of a voice note just created: no duration, and both
/// timestamps equal to the creation time.
pub fn new_voice_note(
    id: i64,
    title: String,
    transcription: String,
    audio_path: String,
    now: String,
) -> (n: VoiceNote)
    ensures
        n.id == id,
        n.title == title,
        n.transcription == transcription,
        n.audio_path == audio_path,
        n.duration_seconds is None,
        n.created_at@ == now@,
        n.updated_at@ == now@,
{
    VoiceNote {
        id,
        title,
        transcription,
        audio_path,
        duration_seconds: None,
        created_at: now.clone(),
        updated_at: now,
    }
}

/// The file name of a voice note's audio: `vn_<id>.wav`.
pub open spec fn audio_file_name_spec(note_id: int) -> Seq<char> {
    "vn_"@ + signed_decimal(note_id) + ".wav"@
}

/// The file name of a voice note's audio.
pub fn audio_file_name(note_id: i64) -> (r: String)
    ensures
        r@ == audio_file_name_spec(note_id as int),
{
    let mut r = String::from_str("vn_");
    let id = i64_to_string(note_id);
    r.append(id.as_str());
    r.append(".wav");
    r
}

/// The `file://` URL of an audio file.
pub fn audio_file_url(path: &str) -> (r: String)
    ensures
        r@ == "file://"@ + path@,
{
    let mut r = String::from_str("file://");
    r.append(path);
    r
}

/// The transcription a voice note holds while it is transcribed in the
/// background.
pub const TRANSCRIBING_PLACEHOLDER: &'static str = "Transcribing...";

/// Whether a voice note's transcript is refined ("polished") before it is
/// saved.
pub fn wants_polish(refine_mode: &str) -> (r: bool)
    ensures
        r == (refine_mode@ == "polished"@),
{
    str_equal(refine_mode, "polished")
}

/// The text a voice note keeps when its transcription failed.
pub fn transcription_failed_text(error: &str) -> (r: String)
    ensures
        r@ == "Transcription failed: "@ + error@,
{
    let mut r = String::from_str("Transcription failed: ");
    r.append(error);
    r
}

/// The name of the temporary recording of a voice note transcribed in the
/// background, made unique by a timestamp.
pub fn background_note_file_name(timestamp: &str) -> (r: String)
    ensures
        r@ == "murmur_vn_"@ + timestamp@ + ".wav"@,
{
    let mut r = String::from_str("murmur_vn_");
    r.append(timestamp);
    r.append(".wav");
    r
}

} // verus!
