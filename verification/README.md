# stakrr

Reward accounting and instruction rules of a single-pool staking program,
verified with Verus.

- `src/states/pool.rs`: the pool and its reward accumulator (`accrued_at`
  is the model of an accrual, with properties of accrual over time).
- `src/states/user.rs`: a staker's position and its synchronisation with the
  accumulator (`claimed_at`).
- `src/instructions/`: one module per instruction; each handler is specified
  by an `*_outcome` spec function giving its result and the accounts after it.
  Refused instructions leave the accounts unchanged.
- `src/properties.rs`: properties across instructions (authority checks,
  pausing, claims, unstaking, rate changes).
- `app/`: the on-chain program built on the library: account deserialisation,
  the clock, and the token transfers and burns that the handlers report.
