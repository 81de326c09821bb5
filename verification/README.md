# palaco-la

The L.A. (legal authority) core: the constitutional chain

QUESTION → EVIDENCE → EPISTEMIC STATE → THRESHOLD → DECISION → AUTHORITY →
AUTHORIZATION → EXECUTION PERMIT → EXECUTION LIFECYCLE

and the immutable event history that records it (exact canonical payload →
SHA-256 → Ed25519 signature, hash-chained per aggregate, append-only).

## Layout

- `src/` — the verified library (Verus). Every decision of the chain, the
  replay verifier, semantic authorization replay, COMET invalidation and the
  decisions of the append-only store are stated in `requires`/`ensures` and
  proved. Calls into `sha2`, `ed25519-dalek`, `chrono` and `uuid` stand behind
  small trusted wrappers whose contracts are documented where they are
  declared.
- `tests/` — executable tests of the library.
- `app/` — the edges: serde JSON payloads, the PostgreSQL event store
  (`sqlx`, async) and conversions to `uuid`/`chrono`/`ed25519-dalek` values.
