# creditra-credit

Credit lines with risk-priced interest, written in Verus: every entrypoint
is a state transition of [`Credit`](src/contract.rs) whose contract states
exactly when it fails, with which error, and what it changes.

Layout:

- `src/math_utils.rs`, `src/fees.rs`, `src/penalties.rs`, `src/risk.rs`,
  `src/accrual.rs`, `src/borrow.rs`, `src/query.rs` — fixed-point
  arithmetic, fee splits, late fees, score-based pricing, interest
  accrual, repayment allocation and position queries.
- `src/scoring.rs`, `src/attestation.rs`, `src/quorum.rs` — VRF-bound risk
  scores, Merkle attestation proofs (SHA-256 from the Soroban host) and
  quorum-of-K oracle prices.
- `src/contract.rs` and `src/contract/` — the contract state, its
  well-formedness invariant (the utilized total equals the sum over lines,
  balances and accrued interest stay non-negative, rates stay within
  10 000 bps) and the
  entrypoints; `src/contract/laws.rs` states properties relating several
  entrypoints.
- `tests/` — scenario tests on concrete values.
- `app/` — code kept outside verification: the Soroban host
  (`app/host.rs`: address registry, authorization, ledger time, the
  reentrancy flag and receipt execution), budget-regression baselines and
  the pinned prorating snapshot, both read from JSON files.

Token transfers are not performed by the library: successful calls return
receipts (`DrawReceipt`, `RepayReceipt`, `CollateralTransfer`,
`TokenTransfer`) that the host executes, and values the host observes
(ledger time, reserve balances, an auction contract's reply) are passed in
as arguments.
