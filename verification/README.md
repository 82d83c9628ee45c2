# wasmbet_contract_dice

A dice game played against a shared pot. A player bets that a lucky number
drawn among 0..=58 falls over or under a prediction; a lost bet joins the pot,
a won bet is paid from it. The pot's owner funds it, drains it and sets the
bet limits and the house fee.

- `src/` is the game logic, verified with Verus: the rules as spec functions
  (`rules.rs`), the entry logic with exact contracts (`contract.rs`), the
  properties that span messages and queries (`laws.rs`), the draw (`rand.rs`),
  and the SHA-256 call behind one trusted wrapper (`digest.rs`).
- `app/` runs it as a CosmWasm contract: storage, the chain's address API and
  JSON around the library.
- `tests/` exercises the library on concrete values.
