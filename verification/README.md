# meetily

The logic of a meeting recorder, verified with Verus: audio level
monitoring state, the chunk queue between capture and transcription, the
sentence accumulator that turns recogniser segments into transcript
updates, the transcription workers' stopping and retry policy, the
recording session's chunking, draining, status and failure reporting, the
WAV container of a saved recording, and the tray and floating-window
choices.

- `src/` — the verified library.
- `tests/` — tests of the library on concrete values.
- `app/` — the Tauri application around it: commands, tray, shortcut,
  audio capture tasks, HTTP calls and floating-point sample arithmetic.

Floating-point values pass through the library as their bit patterns.
