//! A fixed-supply, tiered-price token sale: the allocation engine that walks
//! the price levels, the sale lifecycle, and the per-buyer contribution ledger.
pub mod address;
pub mod errors;
pub mod engine;
pub mod laws;
pub mod level;
pub mod presale;
pub mod user;
