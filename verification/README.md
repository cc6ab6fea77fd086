# bind19

BIND-19 is the transport binding layer of the CI-144 protocol family: an
8-byte frame header, the optional 4-byte PFP (physical feature) and 28-byte
SAP (security attestation) layers, anti-replay checking per tenant and source,
the key rotation state machine, and the CATASTROPHIC hard override with its
hash-chained audit log.

The library in `src/` is written and proved with Verus:

- `pfp`, `pal`, `sap`, `frame`: the codecs, each with an exact byte-level
  specification and decode/encode round-trip laws;
- `replay_cache`, `processor`: the anti-replay table over a `DashMap`, modelled
  as a map from (tenant, source) to the last Seq-Counter seen, with the tick
  of each entry's last update on the cache's clock so that TTL cleanup is
  stated exactly (`cleanup_expired_at`). Their updating
  methods take `&mut self`, so that each change is visible to the proofs; a
  cache is therefore not shared between threads through `Arc` as a bare
  `DashMap` could be;
- `rotation`: the key rotation state machine and its fail-closed laws;
- `catastrophic`: detection on raw PFP bytes, the event bus, and the audit log,
  whose well-formedness (every record intact and linked to the one before,
  records numbered one after another) holds across appends, rotation and
  clears, so that an untampered log always verifies. The manager shares the
  log between its clones behind vstd's verified `RwLock`;
- `crypto`: Ed25519 and SHA-256 through `ed25519-dalek` and `sha2`;
- `config`: debug/production mode and the reading of `CI144_DEBUG`;
- `bits`, `buf`: bit-level facts and byte-buffer helpers the codecs rest on.

`app/` holds what stays outside verification: the process-wide configuration
read from the environment, and error types implementing `Display`.

The tests under `tests/` run the compiled library.
