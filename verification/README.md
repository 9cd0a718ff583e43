# lifecycle

The lifecycle of paid messages: a record is bound to a message when postage
is attached, follows its delivery and read receipts, and ends in one outcome
of the postage escrow (settled, refunded, disputed, expired, reclaimed).

- `src/types.rs` – the plain data the contract reads and stores.
- `src/rules.rs` – the transition table and the matching checks.
- `src/model.rs` – the abstract state and what each invocation does to it.
- `src/contract.rs` – the executable state machine, proved against the model.
- `src/laws.rs` – properties of single invocations and of the contract as a whole, proved.
- `src/sequences.rs` – properties over any sequence of invocations, proved.
- `app/lib.rs` – the Soroban contract that keeps this state in contract
  storage, asks the policies contract, performs the required
  authorizations and publishes the events.
