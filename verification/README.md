# hermes

The decision logic of Hermes, a push-to-talk dictation tray application for
Windows, written in Verus and proved against its contracts.

- `src/` — the verified library:
  - `config` — settings, defaults, backend choice, resolved paths, and the
    repair of a stale `whisper_cli_path`;
  - `hotkey` — which gesture a configuration names, and the tracker that turns
    key events into one `Pressed` and one `Released` per hold;
  - `dictation` — the main loop as a state machine from event to next state
    and step, plus the transcript text rules;
  - `typing` — the keyboard event sequences of a paste and of the
    character-by-character fallback;
  - `platform` — tray labels and requests, terminal detection, the choice of
    the text target, the tray icon;
  - `stt` — backend selection, the WhisperX runtime bootstrap and invocation,
    and reading its output;
  - `diagnostics` — the `--diagnose` report;
  - `paths`, `text` — path and string helpers with their specifications.
- `tests/` — tests of the library on concrete values.
- `app/` — the Windows side (keyboard hook, tray, `SendInput`, clipboard,
  subprocesses, configuration files) that drives the library.
