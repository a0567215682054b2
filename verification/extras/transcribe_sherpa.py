"""Offline transcription with sherpa-onnx.

Usage:
    transcribe_sherpa.py --wav_path FILE --model_type whisper|parakeet
                         --model_dir DIR --language CODE

Prints one JSON object on standard output: {"text": "..."} with the
transcript, or {"error": "..."} when transcription fails.
"""

import argparse
import json
import os
import sys
import wave


def read_wav(path):
    import numpy as np

    with wave.open(path, "rb") as f:
        channels = f.getnchannels()
        width = f.getsampwidth()
        rate = f.getframerate()
        frames = f.readframes(f.getnframes())
    if width == 2:
        samples = np.frombuffer(frames, dtype=np.int16).astype(np.float32) / 32768.0
    elif width == 4:
        samples = np.frombuffer(frames, dtype=np.int32).astype(np.float32) / 2147483648.0
    elif width == 1:
        samples = (np.frombuffer(frames, dtype=np.uint8).astype(np.float32) - 128.0) / 128.0
    else:
        raise ValueError("unsupported sample width: %d bytes" % width)
    if channels > 1:
        samples = samples.reshape(-1, channels).mean(axis=1)
    return samples, rate


def model_file(model_dir, name):
    path = os.path.join(model_dir, name)
    if not os.path.isfile(path):
        raise FileNotFoundError("model file not found: %s" % path)
    return path


def make_recognizer(model_type, model_dir, language):
    import sherpa_onnx

    threads = max(1, (os.cpu_count() or 2) // 2)
    if model_type == "parakeet":
        return sherpa_onnx.OfflineRecognizer.from_transducer(
            encoder=model_file(model_dir, "encoder.int8.onnx"),
            decoder=model_file(model_dir, "decoder.int8.onnx"),
            joiner=model_file(model_dir, "joiner.int8.onnx"),
            tokens=model_file(model_dir, "tokens.txt"),
            num_threads=threads,
            decoding_method="greedy_search",
            model_type="nemo_transducer",
        )
    if model_type == "whisper":
        # The model directory is named whisper_<size>; its files carry the size.
        size = os.path.basename(os.path.normpath(model_dir)).split("_", 1)[-1]
        return sherpa_onnx.OfflineRecognizer.from_whisper(
            encoder=model_file(model_dir, "%s-encoder.int8.onnx" % size),
            decoder=model_file(model_dir, "%s-decoder.int8.onnx" % size),
            tokens=model_file(model_dir, "%s-tokens.txt" % size),
            language="" if language in ("", "auto") else language,
            task="transcribe",
            num_threads=threads,
        )
    raise ValueError("unknown model type: %s" % model_type)


def main():
    parser = argparse.ArgumentParser()
    parser.add_argument("--wav_path", required=True)
    parser.add_argument("--model_type", required=True)
    parser.add_argument("--model_dir", required=True)
    parser.add_argument("--language", default="auto")
    args = parser.parse_args()
    try:
        recognizer = make_recognizer(args.model_type, args.model_dir, args.language)
        samples, rate = read_wav(args.wav_path)
        stream = recognizer.create_stream()
        stream.accept_waveform(rate, samples)
        recognizer.decode_stream(stream)
        print(json.dumps({"text": stream.result.text.strip()}, ensure_ascii=False))
    except Exception as e:  # reported to the caller as JSON
        print(json.dumps({"error": str(e)}, ensure_ascii=False))
    sys.stdout.flush()


if __name__ == "__main__":
    main()
