//! A pricing-and-settlement engine for a per-subject key market.
//!
//! Each subject has a tradable supply of keys priced along a quadratic
//! bonding curve. The crate computes exact batch prices in constant time,
//! splits them among creator, protocol and an optional referrer with
//! fixed-point basis-point shares, and applies the resulting supply and
//! balance changes atomically, with overflow treated as a hard failure.
//!
//! Persistence, authentication and the actual movement of funds are the
//! caller's collaborators: the library consumes plain values (current
//! supply, holder balance, timestamps) and produces plain values (new
//! supply, new balances, a settlement breakdown).

pub mod curve;
pub mod errors;
pub mod fees;
pub mod ledger;
pub mod trade;
