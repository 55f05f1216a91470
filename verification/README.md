# pinocchio_fundraiser

A crowdfunding program over SPL tokens, written as a Verus-verified library
(`src/`) and a thin on-chain driver (`app/`).

- `src/state.rs` — the fundraiser and contributor accounts, their byte layouts,
  and read-after-write laws for every field.
- `src/le.rs` — little-endian encoding of the stored integers, proved inverse.
- `src/pda.rs` — program-derived addresses (the two calls into Pinocchio): the
  fundraiser, each contributor record, and the vault, which is pinned to the
  fundraiser's associated token account for its mint.
- `src/instructions*.rs` — the decisions of `Initialize`, `Contribute`,
  `CheckContributions` and `Refund`: each `decide_*` function takes the values
  read from the accounts (a failed read as its error code) and gives, in the
  program's order of checks, the error or the transfers and accounts to write.
- `src/laws.rs` — what holds across instructions: contributing and refunding
  partition time (by whole days, without wrap-around); collecting and refunding
  exclude each other; funds leave only the pinned vault; accepted
  contributions stay within the cap; over any sequence of contributions and
  refunds the collected amount equals the sum of open records and nobody is
  refunded more than they gave; one record per contributor; a second
  `Initialize` is refused.
- `app/lib.rs` — the entrypoint: account and sysvar reads, token transfers,
  account creation and closing.
