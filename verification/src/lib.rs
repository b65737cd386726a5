//! Cross-exchange arbitrage detection engine.
//!
//! Two independent exchange feeds deliver order-book snapshots; the engine
//! holds the latest snapshot per venue and, after every update, decides
//! whether a quantity-matched, strictly profitable crossing exists between
//! the two venues. On the first match found (in a fixed scan order) it
//! emits one opportunity and clears both venues' state, so the next
//! detection pass starts from fresh data only.
//!
//! Prices and quantities are exact decimals: equality on quantities is
//! load-bearing, so no binary floating point is involved anywhere.

pub mod book;
pub mod decimal;
pub mod detect;
pub mod laws;
pub mod store;
