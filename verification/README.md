# codex_overlay

The core of Codex Overlay, a desktop interview assistant with two answer
lanes (a fast realtime "Quick" lane and an authoritative Pi agent lane),
live transcription of the microphone and of system audio, screenshot input
and a same-network remote view. The library is written in Verus: every
function in `src/` carries a contract, and Verus proves the code against it.

## Layout

- `src/text.rs`, `src/order.rs`: text primitives (trimming, substring tests,
  ASCII case folding, decimal and hexadecimal rendering) and the
  lexicographic orders used to sort documents.
- `src/context.rs`: context packs — which folder entries are read, the order
  in which documents are packed, the packed text and its SHA-256 fingerprint.
- `src/credentials.rs`: `.env` parsing and the search order for secrets.
- `src/prompts.rs`: the built-in instructions of both lanes and the rules
  for editable prompt files.
- `src/realtime.rs`: the Quick lane's conversation history, retryable turns,
  screenshot compaction and the handling of every realtime server event.
- `src/pi.rs`: model selections, session reuse, the Pi worker's request
  bookkeeping and error classification.
- `src/transcribe.rs`, `src/microphone.rs`, `src/echo.rs`: transcription
  streams, capture framing, PCM encoding and echo-cancellation checks.
- `src/remote.rs`: roles, client counts, scroll ownership and the commands
  that remote clients may send.
- `src/passive_input.rs`: the global keyboard shortcuts.
- `app/`: the runtime around the library — files, environment, web sockets,
  the worker process, the web server, audio devices and the keyboard tap.
- `tests/`: tests of the library's public functions.

Laws that span several functions are stated and proved as public proof
functions (`lemma_*`) next to the functions they are about.
