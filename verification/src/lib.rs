//! Elastic-share vault accounting and collateralised lending arithmetic.
//!
//! `common` holds the arithmetic both ledgers share: the share/amount
//! conversion ledger and the 256-bit unsigned integer. `bentobox` is the
//! vault: per-asset totals, holder balances, and the engine that moves idle
//! tokens into and out of a yield strategy. `strategy` states what the vault
//! asks of a strategy, and `strategy_mock` is a strategy over a single pool.
//! `cauldron` is the lending market on top of the vault: interest accrual,
//! solvency and liquidation. `swapper` states what the market asks of a
//! swapper, and `swapper_orca` and `swapper_raydium` prepare swaps over two
//! kinds of pool.

pub mod bentobox;
pub mod cauldron;
pub mod common;
pub mod error;
pub mod strategy;
pub mod strategy_mock;
pub mod swapper;
pub mod swapper_orca;
pub mod swapper_raydium;
