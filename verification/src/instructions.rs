//! The market's instructions, each as a decision over the account data it reads.
pub mod borrow;
pub mod deposit_collateral;
pub mod initialize;
pub mod liquidate;
pub mod repay;
pub mod update_liquidity_risk;
pub mod withdraw_collateral;
