# stellar_swipe

Verified core of two StellarSwipe Soroban contracts.

- `src/fee_collector.rs`: the fee collector's storage (admin, fee
  configuration, fees pending per provider and token), fee clamping,
  configuration updates and fee claims.
- `src/auto_trade.rs`: the auto-trade contract's trade execution as a step
  machine (`TradeMachine`) that asks the ledger one question at a time, its
  outcome against a complete set of answers (`run_trade`), and the trade
  store read by `get_trade`.
- `src/errors.rs`, `src/account.rs`: error codes and ledger addresses as
  plain values; `src/keyed.rs`: entry lists with distinct keys and the maps
  they stand for.
- `src/laws.rs`: properties across calls (configuration read-after-write,
  claim settlement, fee idempotence and monotonicity, early rejection of
  invalid amounts, stored trades).
- `app/`: the Soroban contract wrappers, which move data between ledger
  storage, events, token transfers and the library.
