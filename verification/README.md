# solana_audit_kit

Verified pieces of a Solana audit harness (fuzz target and LiteSVM
proof-of-concept).

- `src/bytes.rs`: fixed-length argument layout and little-endian amounts.
- `src/keys.rs`: 32-byte addresses; base58 decoding, the system program id and
  program-derived addresses come from solana-sdk behind trusted wrappers.
- `src/instruction.rs`: instructions and account metas as plain values.
- `src/fuzz.rs`: which instruction a fuzzer input stands for, how each is laid
  out, and the state-owner invariant.
- `src/poc.rs`: the missing-signer exploit instruction and the scenario PDAs.
- `app/`: the honggfuzz/LiteSVM driver and conversions to solana-sdk types.
