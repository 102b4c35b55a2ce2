# coralswap_pair

The verified core of a constant-product pair contract, written in Verus.

- `src/flash_loan.rs`: the flash-loan fee schedule (`compute_flash_fee`), the
  pre-flight checks before any token moves (`plan_flash_loan`) and the repayment
  and invariant checks after the receiver's callback (`settle_flash_loan`).
- `src/oracle.rs`: cumulative prices with a ring buffer of the last 24
  observations (`update_cumulative_prices`) and time-weighted averages read back
  from it (`consult_twap`).
- `src/events.rs`: the pair's events, appended to an event log.
- `src/errors.rs`: the pair, oracle and factory errors and their contract codes.
- `src/arith.rs`: `i128` division and wrapping arithmetic as spec functions.

`app/` holds the host side: storage, ledger reads, token transfers, the
receiver callback and event publishing, on `soroban-sdk`.
