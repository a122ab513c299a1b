//! The error taxonomy of the trading core.
//!
//! Domain-input errors, arithmetic errors and state errors are kept as
//! distinct variants so that a caller can tell a bad request from a system
//! limit. No arithmetic failure is ever downgraded to a wrapped value.

use vstd::prelude::*;

verus! {

/// Every way a pricing or trading operation can fail. All errors are
/// terminal for the trade: nothing is retried and no state is mutated
/// once one is raised.
#[derive(Clone, Copy, Debug, PartialEq, Eq, Structural)]
pub enum TradeError {
    /// A zero amount (or zero payment bound) where the operation needs a
    /// strictly positive one.
    InvalidAmount,
    /// Curve parameters that violate their invariant (a zero base price,
    /// slope, precision or maximum supply) or a fee schedule above 100%.
    InvalidCurveParameters,
    /// A supply argument beyond the market's maximum supply.
    InvalidSupply,
    /// A purchase that would push the supply past the maximum.
    ExceedsMaxSupply,
    /// An amount above the configured per-trade cap.
    ExceedsMaxPurchase,
    /// A sale of more keys than the market has outstanding.
    InsufficientSupply,
    /// A sale of more keys than the holder owns.
    InsufficientKeys,
    /// A payment instrument that cannot cover a transfer. The settlement
    /// collaborator raises this; the pricing core itself never does.
    InsufficientFunds,
    /// An intermediate or final value that does not fit its integer width.
    Overflow,
    /// A computed total above the buyer's payment cap, or proceeds below
    /// the seller's floor.
    SlippageExceeded,
    /// A trade submitted after its deadline.
    TradeDeadlineExceeded,
}

impl TradeError {
    /// A short human-readable description of the error.
    pub fn describe(&self) -> (r: String)
        ensures
            r@.len() > 0,
    {
        let s = match self {
            TradeError::InvalidAmount => "invalid amount",
            TradeError::InvalidCurveParameters => "invalid curve parameters",
            TradeError::InvalidSupply => "invalid supply",
            TradeError::ExceedsMaxSupply => "exceeds maximum supply",
            TradeError::ExceedsMaxPurchase => "exceeds maximum purchase",
            TradeError::InsufficientSupply => "insufficient supply",
            TradeError::InsufficientKeys => "insufficient keys",
            TradeError::InsufficientFunds => "insufficient funds",
            TradeError::Overflow => "arithmetic overflow",
            TradeError::SlippageExceeded => "slippage exceeded",
            TradeError::TradeDeadlineExceeded => "trade deadline exceeded",
        };
        proof {
            reveal_strlit("invalid amount");
            reveal_strlit("invalid curve parameters");
            reveal_strlit("invalid supply");
            reveal_strlit("exceeds maximum supply");
            reveal_strlit("exceeds maximum purchase");
            reveal_strlit("insufficient supply");
            reveal_strlit("insufficient keys");
            reveal_strlit("insufficient funds");
            reveal_strlit("arithmetic overflow");
            reveal_strlit("slippage exceeded");
            reveal_strlit("trade deadline exceeded");
        }
        s.to_string()
    }
}

} // verus!
