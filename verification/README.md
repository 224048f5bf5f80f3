# escrow_engine

A token escrow between a buyer and a seller, with an arbitrator for
disputes, written in Verus.

- `src/` is the verified library: the escrow state and its errors and
  events (`state`), account addresses (`key`), the escrow's address seeds and
  the program-address check (`address`), the account constraints of each
  instruction (`accounts`), the six instructions as state transitions
  (`instructions`), each instruction behind its account checks (`entry`)
  and the laws that hold across them (`laws`).
- `app/` is the Anchor program around it: it reads the accounts and the
  clock, calls the library, performs the token transfers it asks for and
  stores the new state.
- `tests/` runs the library on concrete deals.
