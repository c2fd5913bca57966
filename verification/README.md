# voxely

The decision-making core of Voxely, a tray-first voice dictation app for
Windows, written in Verus: the functions in `src/` carry contracts that
Verus proves, except a few small wrappers around std, `httpdate` and
`serde_json` calls (marked `external_body`), whose contracts are trusted.

- `src/app` — the dictation session state machine (`machine`), generation
  leases, overlay revisions and placement, hotkey command coalescing, launch
  arguments, window titles and routes, the model comparison rules, and the
  decisions of the recording pipeline (`session`).
- `src/transcription` — HTTP and transport error classification, `Retry-After`,
  exponential backoff and the attempt scheduler (`retry`); request shape and
  progress reports of the transcription client (`openrouter`).
- `src/windows_int/insert_engine` — how a transcript is planned as key events,
  chunked, typed into the captured window or copied, against an abstract
  desktop (`InsertWorld`) whose ghost log records every call made on it.
- `src/history` — recording status storage, paging, retention passes (as
  steps that decide each deletion; `app/retention_runner` carries them out)
  and orphan cleanup.
- `src/dsp/obs_mapping` — which sources and filters of an OBS scene
  collection are imported, and how.
- `src/settings`, `src/updates`, `src/audio`, `src/dsp`, `src/logging`,
  `src/notify` — settings validation and migrations, version policy and update
  pacing, capture arithmetic and device resolution, timing statistics, log
  names, notification text.
- `src/text` — character-level string helpers the rest is built on.

`app/` holds what stays outside the proofs: serde and `thiserror` forms of the
library's types, build facts, paths, the wall clock, the settings file, and
the lock around text insertion.
