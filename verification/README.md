# inference-core

A local speech-to-text sidecar that answers HTTP on a UNIX socket, and its
command-line client.

- `src/` is the verified library (Verus):
  - `text` — decimal rendering, Unicode whitespace trimming, ASCII
    case-insensitive prefixes, substring search, unsigned decimal parsing;
  - `backend` — errors, options, transcripts, model descriptions;
  - `audio` — WAV header admission (read with `hound`) and the route of
    decoded samples;
  - `wire` — the response encoding chosen from `Accept`, response shapes;
  - `server` — `/healthz`, `/version`, and every decision of `/v1/stt`;
  - `stub` — the test backend;
  - `whisper` — CoreML encoder location, model description, transcript
    assembly from inference segments;
  - `cli` — socket resolution, `Accept` choice, health line, exit codes;
  - `laws` — properties that span several of the above.
- `app/` is the program around it: axum server, signals, sample decoding and
  resampling on `f32`, the Whisper inference calls, and the `lda-cli` client
  (chosen when the program runs under that name).
- `tests/` exercises the library.
