# pulsartrack

The contract logic of the PulsarTrack advertising platform on Stellar, as a
verified library.

- `src/` holds one module per contract. Each contract is a value that holds
  its storage; its operations take the invocation's authorisations (`Auth`)
  and the ledger's clock (`Ledger`) as arguments, return a `Result` whose
  error names the refusal, and leave the storage as it was when they refuse.
  Token movements are returned as `Transfer`s for the host to carry out.
  Every operation's contract states the storage after it over a view of the
  contract (`XxxState`), and the `lemma_*` proof functions state what holds
  across operations.
- `src/common.rs` holds what the contracts share; `src/admin.rs` the
  two-step hand-over of the administrator role.
- `app/` holds the host side: addresses, authorisation, the ledger clock,
  token movements and calls to other contracts through `soroban-sdk`.
- `tests/` exercises each contract.
