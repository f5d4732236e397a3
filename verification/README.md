# amana_escrow

An escrow for token-settled trades, verified with Verus.

A buyer opens a trade for an amount, marks it funded and confirms delivery;
the administrator then releases the amount: the seller receives it minus a fee
in basis points, which goes to the treasury.

- `src/types.rs`: trades, their status, the storage keys, the events and the
  errors with the messages the contract aborts with.
- `src/rules.rs`: how trade identifiers are made (ledger sequence in the upper
  32 bits, or-ed with a counter) and how a released amount is split.
- `src/escrow.rs`: the contract's state (`EscrowContract`, viewed as
  `EscrowState`), one method per contract call with its exact outcome, and one
  `*_signer` method per call that names whose authorization the call needs.
- `src/laws.rs`: properties that span calls (initialization happens once, the
  lifecycle only moves forward one step at a time, the invariant is kept, a
  created trade reads back as written, identifiers grow, fee bounds).
- `app/lib.rs`: the Soroban contract: it loads the records a call touches from
  the host's storage, asks the library to decide, requires the named
  authorization, performs the token transfers, stores the changed records and
  publishes the events.
