# groka

Per-turn reasoning-effort routing for a coding agent, and the `/usage` slash
command, written in Verus with their contracts proved.

- `src/effort.rs` — effort levels, the low/medium/high triad and rank clamping.
- `src/text.rs` — whitespace trimming, ASCII case folding, substring tests over chars.
- `src/signals.rs` — the simple-chat / hard-task / coding keyword signals.
- `src/router.rs` — router configuration, the keyword/length scorer and the hybrid cascade.
- `src/stage.rs` — stage axes folded from last-turn tool outcomes, and their verdict.
- `src/decimal.rs` — decimal number text read as a confidence in millionths.
- `src/classifier.rs` — the judge request and the reading of the judge's reply.
- `src/usage.rs` — the `/usage` command: arguments, suggestions, external-auth detection.
- `src/laws.rs` — properties relating these functions across inputs.
- `app/lib.rs` — serde forms of the configuration, protocol and JSON conversions,
  the `tanh` of the stage confidence, and the judge call under a timeout.

Confidences are integers in millionths (`CONFIDENCE_ONE = 1_000_000`).
