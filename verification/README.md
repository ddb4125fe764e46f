# proof_of_heart

A community-validated crowdfunding platform, written in Verus and proved against
its contracts.  Creators open campaigns, the admin or a token-weighted community
vote verifies them, contributors fund verified campaigns before their deadline,
creators withdraw funded campaigns (less the platform fee, with an optional vesting
reserve), contributors take their money back from cancelled or failed campaigns,
and start-ups share revenue with their contributors.

## Layout

- `src/` — the verified library.  `state.rs` holds the platform state
  `ProofOfHeart` and its mathematical model `ContractView`; every entry point is a
  method that returns an `Outcome`: the accounts whose authorization the call
  demands and either an error (nothing changed) or the token transfers and events
  of the call.  `admin.rs`, `campaigns.rs`, `contributions.rs`, `withdraw.rs`,
  `revenue.rs`, `voting.rs` and `queries.rs` hold the calls, each with a contract
  over `ContractView`; `laws.rs` states and proves properties that span calls.
- `tests/` — scenario tests, run against an in-memory ledger that carries out the
  token transfers the calls ask for.
- `app/` — the Soroban contract around the library: storage, authorization, token
  transfers and events.
