//! Liquidity-aware lending: the risk engine and the rules of a lending market
//! for tokenized equities, whose borrowing capacity follows the liquidity that
//! can actually be recovered on-chain.
pub mod error;
pub mod key;
pub mod constants;
pub mod state;
pub mod math;
pub mod risk_engine;
pub mod instructions;
pub mod integrations;
pub mod mock_meteora;
