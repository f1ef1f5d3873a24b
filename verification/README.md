# miden_swapp

A verified core for partially fillable swap (PSWAP) notes on the Miden rollup.

- `src/` is the library, verified with Verus:
  - `pricing` — the proportional price rule (rounded down) and its properties;
  - `pswap` — the note's inputs, tag and the reading of its inputs;
  - `swapp_script` — the decisions of the SWAPP note script when a note is reclaimed or filled;
  - `inflight` — the advice data of the inflight P2ID transaction script, and that script's
    reading of it;
  - `felt`, `types`, `protocol` — field elements, plain forms of protocol objects, and the calls
    into `miden-protocol`, `miden-crypto` and `miden-core`.
- `app/` builds protocol objects (notes, accounts, scripts loaded from compiled packages) around
  the verified core.
- `tests/` runs the library against the real protocol crates.
