# mirilti

Core of a local, privacy-first dictation tool, verified with Verus.

- `src/` — the verified library:
  - `audio/` — target format constants and errors, native sample-format
    conversion and the recording lifecycle (`recorder`), channel downmix and
    the 16 kHz mono decision (`resample`), device formats and device choice
    (`device`), WAV framing and reading through `hound`, pending-file naming
    and the removal guard (`wav`).
  - `output/` — clipboard helper choice, helper commands and their reports
    (`clipboard`); the paste chain portal → ydotool → X11 → clipboard (`inject`).
  - `shortcut/` — the dictation toggle and its press/release events.
  - `text.rs` — decimal rendering used in names and messages.
- `app/` — the shell that does the I/O: `cpal` capture, `rubato`
  resampling (floating point), files, helper processes, desktop portals
  (`ashpd`) and the Tauri windows.
- `tests/` — tests of the library on concrete values.
