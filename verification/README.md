# blocks_sdk

Authoring SDK for node kinds, with its core verified by Verus.

- `src/` — the verified library:
  - `json` — JSON values with a mathematical view (objects as maps, last
    occurrence of a key wins) and member lookup, insertion and removal.
  - `model` — kind ids, node ids and paths, slot schemas, kind manifests
    and messages.
  - `settings` — per-message settings resolution: schema defaults, then the
    persisted config, then message-metadata overrides.
  - `ctx` — `NodeCtx`, the self-scoped handle through which a behaviour
    reads and writes its slots, emits and schedules timers.
  - `attrs` — the rules for `#[node(kind = .., manifest = .., behavior = ..)]`,
    applied to a struct's attributes as syn parses them.
  - `process` — a process block's identity and registrations, and the
    answers to `Describe`, `Health`, `Discover`, `Invoke`, `OnMessage` and
    `OnInit`.
  - `wasm` — the Wasm guest ABI: result packing, leaking buffers, and the
    `on_input` outcome.
- `app/` — the unverified edge: serde wire forms and JSON text, the typed
  `NodeBehavior` trait, the supervisor socket and slot-event bus, the Wasm
  entry points, the diagnostics' spans and the manifest reader of the derive.
- `tests/` — tests of the library.
