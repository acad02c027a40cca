# staking

Verified reward accounting of two Solana staking programs.

- `src/state.rs`: the pool (`StakingInstance`) and staker (`User`) accounts.
- `src/rewards.rs`: per-share reward accrual, pending reward and reward debt.
- `src/metadata.rs`: the Metaplex metadata model, its decoding and the
  collection check.
- `src/nft_staking.rs`: the NFT staking handlers and their laws.
- `src/metaverse_staking.rs`: the fungible staking handlers.
- `app/`: the Anchor programs: account validation, clock and account reads,
  token transfers and mints.
