//! Offline models (speech recognition and the refinement model): which
//! files make up each model, and the decisions taken while downloading
//! them.

use vstd::prelude::*;
use crate::text::{str_equal, u64_to_string, decimal};

verus! {

/// One file of a model and where to download it.
pub struct ModelFileInfo {
    pub name: &'static str,
    pub url: &'static str,
}

/// The files of the model with id `model_id`, as (name, URL) pairs.
pub open spec fn model_files_spec(model_id: Seq<char>) -> Option<Seq<(Seq<char>, Seq<char>)>> {
    if model_id == "parakeet_v3"@ {
        Some(seq![
            ("encoder.int8.onnx"@, "https://huggingface.co/csukuangfj/sherpa-onnx-nemo-parakeet-tdt-0.6b-v3-int8/resolve/main/encoder.int8.onnx"@),
            ("decoder.int8.onnx"@, "https://huggingface.co/csukuangfj/sherpa-onnx-nemo-parakeet-tdt-0.6b-v3-int8/resolve/main/decoder.int8.onnx"@),
            ("joiner.int8.onnx"@, "https://huggingface.co/csukuangfj/sherpa-onnx-nemo-parakeet-tdt-0.6b-v3-int8/resolve/main/joiner.int8.onnx"@),
            ("tokens.txt"@, "https://huggingface.co/csukuangfj/sherpa-onnx-nemo-parakeet-tdt-0.6b-v3-int8/resolve/main/tokens.txt"@),
        ])
    } else if model_id == "whisper_tiny"@ {
        Some(seq![
            ("tiny-encoder.int8.onnx"@, "https://huggingface.co/csukuangfj/sherpa-onnx-whisper-tiny/resolve/main/tiny-encoder.int8.onnx"@),
            ("tiny-decoder.int8.onnx"@, "https://huggingface.co/csukuangfj/sherpa-onnx-whisper-tiny/resolve/main/tiny-decoder.int8.onnx"@),
            ("tiny-tokens.txt"@, "https://huggingface.co/csukuangfj/sherpa-onnx-whisper-tiny/resolve/main/tiny-tokens.txt"@),
        ])
    } else if model_id == "whisper_base"@ {
        Some(seq![
            ("base-encoder.int8.onnx"@, "https://huggingface.co/csukuangfj/sherpa-onnx-whisper-base/resolve/main/base-encoder.int8.onnx"@),
            ("base-decoder.int8.onnx"@, "https://huggingface.co/csukuangfj/sherpa-onnx-whisper-base/resolve/main/base-decoder.int8.onnx"@),
            ("base-tokens.txt"@, "https://huggingface.co/csukuangfj/sherpa-onnx-whisper-base/resolve/main/base-tokens.txt"@),
        ])
    } else if model_id == "whisper_small"@ {
        Some(seq![
            ("small-encoder.int8.onnx"@, "https://huggingface.co/csukuangfj/sherpa-onnx-whisper-small/resolve/main/small-encoder.int8.onnx"@),
            ("small-decoder.int8.onnx"@, "https://huggingface.co/csukuangfj/sherpa-onnx-whisper-small/resolve/main/small-decoder.int8.onnx"@),
            ("small-tokens.txt"@, "https://huggingface.co/csukuangfj/sherpa-onnx-whisper-small/resolve/main/small-tokens.txt"@),
        ])
    } else if model_id == "qwen3_0.6b"@ {
        Some(seq![
            ("Qwen3-0.6B-Q8_0.gguf"@, "https://huggingface.co/Qwen/Qwen3-0.6B-GGUF/resolve/main/Qwen3-0.6B-Q8_0.gguf"@),
        ])
    } else {
        None
    }
}

/// The views of a list of model files.
pub open spec fn file_views(v: Seq<ModelFileInfo>) -> Seq<(Seq<char>, Seq<char>)> {
    v.map_values(|f: ModelFileInfo| (f.name@, f.url@))
}

/// The files that make up a downloadable model; an unknown id is an error.
pub fn get_model_files(model_id: &str) -> (r: Result<Vec<ModelFileInfo>, String>)
    ensures
        model_files_spec(model_id@) matches Some(files) ==> (r matches Ok(v) && file_views(v@)
            == files),
        model_files_spec(model_id@) is None ==> (r matches Err(e) && e@ == "Unsupported model ID: "@
            + model_id@),
{
    if str_equal(model_id, "parakeet_v3") {
        let mut v: Vec<ModelFileInfo> = Vec::new();
        v.push(ModelFileInfo { name: "encoder.int8.onnx", url: "https://huggingface.co/csukuangfj/sherpa-onnx-nemo-parakeet-tdt-0.6b-v3-int8/resolve/main/encoder.int8.onnx" });
        v.push(ModelFileInfo { name: "decoder.int8.onnx", url: "https://huggingface.co/csukuangfj/sherpa-onnx-nemo-parakeet-tdt-0.6b-v3-int8/resolve/main/decoder.int8.onnx" });
        v.push(ModelFileInfo { name: "joiner.int8.onnx", url: "https://huggingface.co/csukuangfj/sherpa-onnx-nemo-parakeet-tdt-0.6b-v3-int8/resolve/main/joiner.int8.onnx" });
        v.push(ModelFileInfo { name: "tokens.txt", url: "https://huggingface.co/csukuangfj/sherpa-onnx-nemo-parakeet-tdt-0.6b-v3-int8/resolve/main/tokens.txt" });
        assert(file_views(v@) =~= model_files_spec(model_id@).unwrap());
        Ok(v)
    } else if str_equal(model_id, "whisper_tiny") {
        let mut v: Vec<ModelFileInfo> = Vec::new();
        v.push(ModelFileInfo { name: "tiny-encoder.int8.onnx", url: "https://huggingface.co/csukuangfj/sherpa-onnx-whisper-tiny/resolve/main/tiny-encoder.int8.onnx" });
        v.push(ModelFileInfo { name: "tiny-decoder.int8.onnx", url: "https://huggingface.co/csukuangfj/sherpa-onnx-whisper-tiny/resolve/main/tiny-decoder.int8.onnx" });
        v.push(ModelFileInfo { name: "tiny-tokens.txt", url: "https://huggingface.co/csukuangfj/sherpa-onnx-whisper-tiny/resolve/main/tiny-tokens.txt" });
        assert(file_views(v@) =~= model_files_spec(model_id@).unwrap());
        Ok(v)
    } else if str_equal(model_id, "whisper_base") {
        let mut v: Vec<ModelFileInfo> = Vec::new();
        v.push(ModelFileInfo { name: "base-encoder.int8.onnx", url: "https://huggingface.co/csukuangfj/sherpa-onnx-whisper-base/resolve/main/base-encoder.int8.onnx" });
        v.push(ModelFileInfo { name: "base-decoder.int8.onnx", url: "https://huggingface.co/csukuangfj/sherpa-onnx-whisper-base/resolve/main/base-decoder.int8.onnx" });
        v.push(ModelFileInfo { name: "base-tokens.txt", url: "https://huggingface.co/csukuangfj/sherpa-onnx-whisper-base/resolve/main/base-tokens.txt" });
        assert(file_views(v@) =~= model_files_spec(model_id@).unwrap());
        Ok(v)
    } else if str_equal(model_id, "whisper_small") {
        let mut v: Vec<ModelFileInfo> = Vec::new();
        v.push(ModelFileInfo { name: "small-encoder.int8.onnx", url: "https://huggingface.co/csukuangfj/sherpa-onnx-whisper-small/resolve/main/small-encoder.int8.onnx" });
        v.push(ModelFileInfo { name: "small-decoder.int8.onnx", url: "https://huggingface.co/csukuangfj/sherpa-onnx-whisper-small/resolve/main/small-decoder.int8.onnx" });
        v.push(ModelFileInfo { name: "small-tokens.txt", url: "https://huggingface.co/csukuangfj/sherpa-onnx-whisper-small/resolve/main/small-tokens.txt" });
        assert(file_views(v@) =~= model_files_spec(model_id@).unwrap());
        Ok(v)
    } else if str_equal(model_id, "qwen3_0.6b") {
        let mut v: Vec<ModelFileInfo> = Vec::new();
        v.push(ModelFileInfo { name: "Qwen3-0.6B-Q8_0.gguf", url: "https://huggingface.co/Qwen/Qwen3-0.6B-GGUF/resolve/main/Qwen3-0.6B-Q8_0.gguf" });
        assert(file_views(v@) =~= model_files_spec(model_id@).unwrap());
        Ok(v)
    } else {
        let mut e = String::from_str("Unsupported model ID: ");
        e.append(model_id);
        Err(e)
    }
}

/// A local model file counts as downloaded when it exists (its size is
/// known) and is not empty.
pub open spec fn file_complete(size: Option<u64>) -> bool {
    size matches Some(n) && n > 0
}

/// Whether a local model file (of size `size`, `None` when it does not
/// exist) is already downloaded, so that a download skips it.
pub fn is_file_complete(size: Option<u64>) -> (r: bool)
    ensures
        r == file_complete(size),
{
    match size {
        Some(n) => n > 0,
        None => false,
    }
}

/// A model is downloaded when every one of its files is.
pub fn model_files_present(sizes: &Vec<Option<u64>>) -> (r: bool)
    ensures
        r == forall|i: int| 0 <= i < sizes@.len() ==> file_complete(#[trigger] sizes@[i]),
{
    let mut i: usize = 0;
    while i < sizes.len()
        invariant
            i <= sizes@.len(),
            forall|k: int| 0 <= k < i ==> file_complete(#[trigger] sizes@[k]),
        decreases sizes@.len() - i,
    {
        if !is_file_complete(sizes[i]) {
            return false;
        }
        i = i + 1;
    }
    true
}

/// The event under which download progress is reported.
pub const DOWNLOAD_PROGRESS_EVENT: &'static str = "model-download-progress";

/// The status reported once every file of a model is downloaded.
pub const DOWNLOAD_COMPLETE_STATUS: &'static str = "All files downloaded successfully!";

/// The status reported for a file that is already downloaded.
pub open spec fn skip_status_spec(index: nat, total: nat, file_name: Seq<char>) -> Seq<char> {
    "Skipped existing file "@ + decimal(index + 1) + "/"@ + decimal(total) + " ("@ + file_name
        + ")"@
}

/// The status reported when the file at position `index` (counting from
/// zero) of `total` files is skipped because it is already downloaded.
pub fn skip_status(index: usize, total: usize, file_name: &str) -> (r: String)
    requires
        index < total,
    ensures
        r@ == skip_status_spec(index as nat, total as nat, file_name@),
{
    let mut r = String::from_str("Skipped existing file ");
    let n = u64_to_string((index + 1) as u64);
    r.append(n.as_str());
    r.append("/");
    let t = u64_to_string(total as u64);
    r.append(t.as_str());
    r.append(" (");
    r.append(file_name);
    r.append(")");
    r
}

} // verus!
