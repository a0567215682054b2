# murmur

The logic of Murmur, a push-to-talk dictation tool, as a Verus-verified
library, with the Tauri desktop application around it.

- `src/` — the verified library:
  - `hotkey` — hotkey descriptions (`"Control + Win"`, `"Shift + F9"`),
    matching them against the keyboard, and the keyboard hook's state machine
    with its laws (a well-bracketed event stream, push to talk, cancellation,
    synthesised keys ignored).
  - `session` — the dictation session: start, stop, cancel, what a finished
    transcription does, which services transcribe and refine, hotkey and tray
    actions.
  - `api` — prompts, endpoints, form fields, command lines and the reading of
    the services' JSON replies.
  - `local_llm` — cleaning the output of the local language model.
  - `audio` — the recorder's states, sample buffers, the noise gate's frame
    decisions, silence trimming and the level meter.
  - `config`, `downloader`, `voice_notes`, `injector` — settings and their
    defaults, model file lists, voice-note records, and the keyboard input
    that types or pastes text.
  - `text` — character-level string utilities with their specifications.
- `tests/` — tests of the library.
- `app/` — the application: Tauri commands, audio capture, HTTP requests,
  files and the database, the Windows keyboard hook and text injection.
- `extras/transcribe_sherpa.py` — the Python script the application installs
  (bundled as a resource) and runs for offline transcription with
  sherpa-onnx; it prints `{"text": ...}` or `{"error": ...}`.
