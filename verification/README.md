# bio-launch

A bonding-curve launch pool for a Solana token, written as a Verus-verified
library (`src/`) with the on-chain Anchor program around it (`app/`).

- `src/state`: the pool's recorded state (`SwapPair`), its constants, and the
  derivation of the pool authority's signer seeds (the one call into
  `anchor_lang`, behind a trusted wrapper in `state/pda.rs`).
- `src/instructions`: each instruction's checks and state change, and the
  transfers it performs once they pass.
- `src/laws.rs`: properties across instructions (reserves follow the
  transfers, a sell-back restores the token reserve, refusal order, signer
  seeds only for the derived authority).
- `app/`: account validation, the floating-point curve quotes, and the
  cross-program transfers.
