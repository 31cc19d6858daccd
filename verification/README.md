# Liquidity-aware lending

A lending market for tokenized equities whose borrowing capacity follows the
liquidity that can actually be recovered on-chain:

```text
effective LTV = min(max LTV x recovery of a reference liquidation, issuer-risk ceiling)
```

## Layout

- `src/` — the verified rules (Verus):
  - `risk_engine.rs`: recovery, execution-derived and effective LTV, snapshot
    freshness (300 slots), and the laws that tie them together;
  - `instructions/`: each instruction as a decision over the account data it reads
    (initialize, update_liquidity_risk, deposit_collateral, borrow, repay,
    withdraw_collateral, liquidate), with the settlement steps that credit what a
    vault actually received;
  - `integrations/meteora.rs`: the Meteora DLMM `Swap2` instruction (accounts and
    Borsh-encoded data);
  - `mock_meteora.rs`: a deterministic stand-in for `Swap2` used to exercise
    liquidations.
- `tests/` — scenario and unit tests, including a small in-memory ledger that runs
  whole instructions and the token movements around them.
- `app/` — the Anchor program around the rules: account validation, token
  transfers, the clock, and the cross-program invocations.
