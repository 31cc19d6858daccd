//! Integrations with liquidity venues.
pub mod meteora;
