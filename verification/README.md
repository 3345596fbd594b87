# voting_pallets

Verified models of two FRAME voting pallets.

- `src/voting`: signed callers register voters; each registered voter may submit
  one proposal (a 32-byte hash) while the vote is in its proposal phase, up
  to 100 proposals. `laws.rs` proves that every call keeps the storage
  consistent, that refused calls change nothing, and that proposals are
  unique per account and per hash.
- `src/voting_nft`: the NFT variant, in which each voter is registered once
  and a proposal is checked but not stored.
- `src/storage.rs`: the keyed storage model; `src/origin.rs`: origins and
  dispatch errors; `src/bounded.rs`: the support library's bounded vector.
- `app/`: the SCALE-encoded copies of the stored values and the conversions
  to and from the runtime's origins and errors.
