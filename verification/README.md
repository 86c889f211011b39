# aura_intent_lineage_v1

Aura's chain-neutral Storm execution, claim and witness-verification core, as a
library verified with Verus: canonical message preparation, arithmetic in the
field of integers modulo `2^521 - 1`, Storm derivation and execution, trace
commitments, claims, public inputs, the witness proof codec and its verifier,
session keys, and the legacy cat-map layer with its mock, scaffold and
Winterfell-backed proofs.

## Layout

- `src/` — the library. Every function carries a `requires`/`ensures`
  contract that Verus proves. The outside crates (SHA-2, SHA-3, Unicode
  normalization, X25519, HKDF and system randomness) are reached through small
  trusted wrappers whose contracts are documented beside them.
- `src/*` laws — the `pub proof fn lemma_*` items state the properties that
  span functions: a proof the Storm prover returns is accepted by the
  verifier, an encoding decodes back to what was encoded, a Merkle opening
  folds back to its root, epochs tile the trace, and so on.
- `legacy::{aura_hash_v1, catmap_v1, proof_pipeline_v1}` — the SHA-256
  identity hash, the cat-map layer with its proofs, and the lower-layer
  execution commitment are reached only through these explicit paths; the
  crate root holds the Storm core.
- `tests/` — ordinary Rust tests of the compiled library.
- `app/` — the Winterfell AIR and prover of the cat-map STARK, which work over
  Winterfell's own field element type, and human-readable messages for the
  library's errors.

## Scope

The authorization layers above the Storm claim — the authorization lineage
and envelope, the Layer 2 lineage object, the Layer 3 claim assembly and its
recurrence checks, the Layer 3/4 ingress and the proof-session packaging —
are not part of this crate. Their record formats (the lineage preimage, its
domain separator and the byte codes of its enumerations) are defined outside
it, so it holds no model of them to verify against.
