# meridian_contracts

Verified core of the Meridian insurance contract suite, written in Verus.

The contracts' storage is modelled as plain Rust values, and every entry
point is a method with a `requires`/`ensures` contract over that state. The
host (a Soroban or ink! runtime) supplies the caller and the block time,
checks signatures, moves tokens, publishes events and performs cross-contract
calls; the library returns what the host has to carry out (token transfers,
circuit-breaker transitions, governance calls).

Layout of `src/`:

- `validation`, `contract_validation`, `bridge_validation`, `escrow` (its
  `require_*` helpers): input checks with exact error contracts.
- `circuit_breaker`, `breaker_store`: the timelocked pause protocol and its
  stored, role-gated form.
- `access_control`, `keyed_map`, `multisig`: roles, keyed storage, threshold
  approval.
- `risk_pool`, `escrow`, `policy`, `governance`, `insurance_types`: the
  contract models, with their laws as public proof functions.
- `zk`, `verification_keys`, `zk_compliance`, `proof_artifacts`: proof
  payload gates, Groth16 checking through arkworks, the compliance contract
  and the prover's published artifacts.
- `hashing`, `state_root`, `events`: digests, Merkle state roots and the
  events hash chain.
- `abi`, `batch`, `invariants`, `errors`, `property_token`: ABI versioning,
  batch accounting, invariant predicates, error codes and record types.

`app/main.rs` is the off-chain Groth16 artifact generator; it calls the
library for statement decoding, the statement binding and the artifact
record, and keeps the arkworks circuit, setup, proving and file output.
