//! Solvency core of an over-collateralized stablecoin: positions of
//! collateral and minted debt, a health factor priced by an oracle feed, and
//! the deposit, redemption and liquidation rules that keep every indebted
//! position at or above the protocol's minimum.

pub mod config;
pub mod error;
pub mod health;
pub mod laws;
pub mod operations;
pub mod oracle;
pub mod position;
