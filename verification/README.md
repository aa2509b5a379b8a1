# lingchat

The verified core of the LingChat game backend, written in Verus.

- `src/` is the library. Every function in it is verified against its
  `requires`/`ensures`; the few calls into outside code (base64 decoding,
  YAML serialisation, Unicode lowercasing, an error's display text) go through
  small trusted wrappers whose contracts are documented where they stand.
  - `player/`: the player profile file, input validation for the profile
    command, and avatar uploads.
  - `script_engine/`: chapters and the narration, AI-dialogue and
    identity-switch events, with the registry of event types.
  - `game_system/`: rebuilding persona lines, session snapshots and rollback,
    and the auto-save fingerprint.
  - `api/save.rs`: the save list and what loading and deleting a save decide.
  - `memory_test_api/`: admission and outcome rules of the memory-validation
    API, its harness bookkeeping and line protocol.
  - `text.rs`: string operations with their specifications (trim, split,
    decimal notation, prefixes).
- `app/` is ordinary Rust around the library: profile and avatar files, the
  axum HTTP API and the stdin line protocol.
- `tests/` runs the library on concrete values.
