# micyou_plugin

The MicYou plugin system as a verified library.

- `src/` — the library, verified with Verus: manifest model and validation
  (`manifest`), error codes (`error`), host API vocabulary (`host`), the WASM
  runtime's decisions (`wasm`) and linear-memory buffer exchange (`memory`),
  WAVE parsing (`wav`) and playback checks (`sound`), the desktop host's
  processing-chain wiring (`plugin_host`), plugin page views (`views`), the
  renderer switch (`renderer`), the `micyou plugin` toolkit (`cli`), and
  string/path helpers (`text`, `path`).
- `app/` — the program around it: command-line parsing, file and zip I/O,
  JSON (de)serialization of manifests, the wasmi interpreter glue, audio
  output, and environment access.
- `tests/` — tests of the library.
