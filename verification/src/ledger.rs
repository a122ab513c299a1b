//! The market ledger: per-subject supply, per-holder balances, and the
//! platform-wide aggregates.
//!
//! The ledger owns the invariant that supply and balances never go
//! negative and never wrap: a sale beyond the holding or the supply is
//! rejected before anything mutates, and an addition that would not fit
//! aborts the whole update. Every mutation is all-or-nothing.

use vstd::prelude::*;
use crate::errors::TradeError;

verus! {

/// One subject's key market.
#[derive(Clone, Copy, Debug, PartialEq, Eq, Structural)]
pub struct Market {
    /// The subject whose keys this market trades.
    pub subject_id: u64,
    /// Keys currently outstanding.
    pub total_supply: u64,
    /// Lifetime base-price volume traded.
    pub total_volume: u64,
    /// When the market was created.
    pub created_at: i64,
    /// When the market last traded.
    pub last_trade_at: i64,
}

impl Market {
    /// A fresh market for a subject: no supply, no volume.
    pub fn new(subject_id: u64, now: i64) -> (m: Market)
        ensures
            m.subject_id == subject_id,
            m.total_supply == 0,
            m.total_volume == 0,
            m.created_at == now,
            m.last_trade_at == now,
    {
        Market { subject_id, total_supply: 0, total_volume: 0, created_at: now, last_trade_at: now }
    }
}

/// One holder's balance in one subject's market.
#[derive(Clone, Copy, Debug, PartialEq, Eq, Structural)]
pub struct HolderBalance {
    /// Keys the holder owns.
    pub amount: u64,
    /// When the holder last traded this subject's keys.
    pub last_trade_at: i64,
}

impl HolderBalance {
    /// A fresh, empty balance, created lazily on first purchase.
    pub fn new(now: i64) -> (b: HolderBalance)
        ensures
            b.amount == 0,
            b.last_trade_at == now,
    {
        HolderBalance { amount: 0, last_trade_at: now }
    }
}

/// Applies a buy to the ledger: supply and the holder's balance grow by
/// `amount`, volume grows by `base_price`, and both trade timestamps are
/// touched.
///
/// Every addition is checked before anything mutates: either all three
/// fit and the whole update happens, or nothing changes and the call
/// fails `Overflow`.
pub fn apply_buy(
    market: &mut Market,
    balance: &mut HolderBalance,
    amount: u64,
    base_price: u64,
    now: i64,
) -> (r: Result<(), TradeError>)
    ensures
        r is Ok <==> {
            &&& old(market).total_supply + amount <= u64::MAX
            &&& old(market).total_volume + base_price <= u64::MAX
            &&& old(balance).amount + amount <= u64::MAX
        },
        r is Ok ==> {
            &&& final(market).total_supply == old(market).total_supply + amount
            &&& final(market).total_volume == old(market).total_volume + base_price
            &&& final(market).last_trade_at == now
            &&& final(market).subject_id == old(market).subject_id
            &&& final(market).created_at == old(market).created_at
            &&& final(balance).amount == old(balance).amount + amount
            &&& final(balance).last_trade_at == now
        },
        r is Err ==> {
            &&& *final(market) == *old(market)
            &&& *final(balance) == *old(balance)
            &&& r == Err::<(), TradeError>(TradeError::Overflow)
        },
{
    let new_supply = match market.total_supply.checked_add(amount) {
        Some(v) => v,
        None => {
            return Err(TradeError::Overflow);
        },
    };
    let new_volume = match market.total_volume.checked_add(base_price) {
        Some(v) => v,
        None => {
            return Err(TradeError::Overflow);
        },
    };
    let new_balance = match balance.amount.checked_add(amount) {
        Some(v) => v,
        None => {
            return Err(TradeError::Overflow);
        },
    };
    market.total_supply = new_supply;
    market.total_volume = new_volume;
    market.last_trade_at = now;
    balance.amount = new_balance;
    balance.last_trade_at = now;
    Ok(())
}

/// Applies a sell to the ledger: supply and the holder's balance shrink
/// by `amount`, volume grows by `base_price`, and both trade timestamps
/// are touched.
///
/// No negative state: a sale beyond the holding fails
/// `InsufficientKeys`, one beyond the outstanding supply fails
/// `InsufficientSupply`, and both are checked before anything mutates,
/// so the counters never wrap. A balance that reaches exactly zero is a
/// signal to the caller to drop the record; the ledger keeps the zeroed
/// value.
pub fn apply_sell(
    market: &mut Market,
    balance: &mut HolderBalance,
    amount: u64,
    base_price: u64,
    now: i64,
) -> (r: Result<(), TradeError>)
    ensures
        r is Ok <==> {
            &&& amount <= old(balance).amount
            &&& amount <= old(market).total_supply
            &&& old(market).total_volume + base_price <= u64::MAX
        },
        r is Ok ==> {
            &&& final(market).total_supply == old(market).total_supply - amount
            &&& final(market).total_volume == old(market).total_volume + base_price
            &&& final(market).last_trade_at == now
            &&& final(market).subject_id == old(market).subject_id
            &&& final(market).created_at == old(market).created_at
            &&& final(balance).amount == old(balance).amount - amount
            &&& final(balance).last_trade_at == now
        },
        r is Err ==> {
            &&& *final(market) == *old(market)
            &&& *final(balance) == *old(balance)
        },
        r == Err::<(), TradeError>(TradeError::InsufficientKeys) <==> amount > old(
            balance,
        ).amount,
        r == Err::<(), TradeError>(TradeError::InsufficientSupply) <==> amount <= old(
            balance,
        ).amount && amount > old(market).total_supply,
        r == Err::<(), TradeError>(TradeError::Overflow) <==> amount <= old(balance).amount
            && amount <= old(market).total_supply && old(market).total_volume + base_price
            > u64::MAX,
{
    if amount > balance.amount {
        return Err(TradeError::InsufficientKeys);
    }
    if amount > market.total_supply {
        return Err(TradeError::InsufficientSupply);
    }
    let new_volume = match market.total_volume.checked_add(base_price) {
        Some(v) => v,
        None => {
            return Err(TradeError::Overflow);
        },
    };
    market.total_supply = market.total_supply - amount;
    market.total_volume = new_volume;
    market.last_trade_at = now;
    balance.amount = balance.amount - amount;
    balance.last_trade_at = now;
    Ok(())
}

/// The platform-wide aggregates, kept apart from any one market so that
/// updating them never serializes trades across subjects.
#[derive(Clone, Copy, Debug, PartialEq, Eq, Structural)]
pub struct KeysGlobalState {
    /// Who may administer the platform.
    pub authority: u64,
    /// How many users have joined.
    pub total_users: u64,
    /// Lifetime volume across every market.
    pub total_volume: u64,
    /// Lifetime fees collected by the protocol.
    pub total_fees_collected: u64,
    /// The protocol share, in basis points.
    pub protocol_fee_rate: u16,
    /// The creator share, in basis points.
    pub creator_fee_rate: u16,
    /// The per-trade cap on purchased keys.
    pub max_keys_per_purchase: u8,
}

impl KeysGlobalState {
    /// A fresh global state under the platform's default rates.
    pub fn initialize(authority: u64) -> (g: KeysGlobalState)
        ensures
            g.authority == authority,
            g.total_users == 0,
            g.total_volume == 0,
            g.total_fees_collected == 0,
            g.protocol_fee_rate == 250,
            g.creator_fee_rate == 500,
            g.max_keys_per_purchase == 10,
    {
        KeysGlobalState {
            authority,
            total_users: 0,
            total_volume: 0,
            total_fees_collected: 0,
            protocol_fee_rate: 250,
            creator_fee_rate: 500,
            max_keys_per_purchase: 10,
        }
    }

    /// Counts one more user; fails `Overflow` at the width, unchanged.
    pub fn increment_user_count(&mut self) -> (r: Result<(), TradeError>)
        ensures
            r is Ok <==> old(self).total_users < u64::MAX,
            r is Ok ==> *final(self) == (KeysGlobalState {
                total_users: (old(self).total_users + 1) as u64,
                ..*old(self)
            }),
            r is Err ==> *final(self) == *old(self) && r == Err::<(), TradeError>(
                TradeError::Overflow,
            ),
    {
        match self.total_users.checked_add(1) {
            Some(v) => {
                self.total_users = v;
                Ok(())
            },
            None => Err(TradeError::Overflow),
        }
    }

    /// Adds one trade's volume; fails `Overflow` at the width, unchanged.
    pub fn add_volume(&mut self, amount: u64) -> (r: Result<(), TradeError>)
        ensures
            r is Ok <==> old(self).total_volume + amount <= u64::MAX,
            r is Ok ==> *final(self) == (KeysGlobalState {
                total_volume: (old(self).total_volume + amount) as u64,
                ..*old(self)
            }),
            r is Err ==> *final(self) == *old(self) && r == Err::<(), TradeError>(
                TradeError::Overflow,
            ),
    {
        match self.total_volume.checked_add(amount) {
            Some(v) => {
                self.total_volume = v;
                Ok(())
            },
            None => Err(TradeError::Overflow),
        }
    }

    /// Adds one trade's fees; fails `Overflow` at the width, unchanged.
    pub fn add_fees(&mut self, amount: u64) -> (r: Result<(), TradeError>)
        ensures
            r is Ok <==> old(self).total_fees_collected + amount <= u64::MAX,
            r is Ok ==> *final(self) == (KeysGlobalState {
                total_fees_collected: (old(self).total_fees_collected + amount) as u64,
                ..*old(self)
            }),
            r is Err ==> *final(self) == *old(self) && r == Err::<(), TradeError>(
                TradeError::Overflow,
            ),
    {
        match self.total_fees_collected.checked_add(amount) {
            Some(v) => {
                self.total_fees_collected = v;
                Ok(())
            },
            None => Err(TradeError::Overflow),
        }
    }
}

} // verus!
