# gemtts

Agent-friendly Gemini text-to-speech command line tool, with its core
verified by Verus.

## Layout

- `src/` — the verified library:
  - `catalog` — the 30 prebuilt voices, inline tags, language hints and
    recipes; search and voice recommendation (a proved ranking).
  - `prompt` — multi-speaker casts, the structured TTS prompt, and the
    script linter.
  - `config` — compiled defaults, API-key precedence, secret masking, and
    reading and changing settings by key.
  - `gemini` — the `generateContent` request body and the interpretation of
    the API's answers.
  - `audio` — output format choice, the WAV container, ffmpeg arguments.
  - `usage` — token counts of generations and ledger totals.
  - `update`, `auth`, `doctor`, `tts`, `error` — version comparison, key
    checks, diagnostics, `speak` decisions, and exit codes.
  - `text`, `json`, `cli` — text helpers, the JSON model, argument types.
- `app/` — the executable: argument parsing, files, environment, HTTP,
  ffmpeg, floating-point cost figures and output rendering, all calling the
  library for their decisions.
- `tests/` — tests of the library on concrete values.

## Exit codes

| Code | Meaning |
| --- | --- |
| `0` | Success |
| `1` | Transient, IO, network, or audio encoder error |
| `2` | Config or credential error |
| `3` | Bad input |
| `4` | Rate limited |
