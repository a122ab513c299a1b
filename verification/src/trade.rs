//! The trade orchestrator: one atomic buy or sell against a market.
//!
//! A trade runs in two phases. `plan_buy` / `plan_sell` validate the
//! request, price the batch and split the fees without touching any
//! state; the caller then executes the settlement transfers the returned
//! breakdown describes, and only afterwards commits the ledger change
//! with `apply_buy` / `apply_sell`. `buy` and `sell` run both phases as
//! one critical section for callers whose settlement cannot fail
//! part-way. Every failure is raised before any state mutates.

use vstd::prelude::*;
use crate::curve::CurveParameters;
use crate::curve::spec_batch_result;
use crate::errors::TradeError;
use crate::fees::FeeSchedule;
use crate::fees::TradeBreakdown;
use crate::fees::fee_sum;
use crate::fees::spec_split_buy;
use crate::fees::spec_split_sell;
use crate::fees::split_buy;
use crate::fees::split_sell;
use crate::ledger::Market;
use crate::ledger::HolderBalance;
use crate::ledger::apply_buy;
use crate::ledger::apply_sell;

verus! {

/// What a buy costs after fees: the batch price split and summed.
pub open spec fn spec_buy_total_result(
    p: CurveParameters,
    sch: FeeSchedule,
    s: int,
    n: int,
    has_referrer: bool,
) -> Result<u64, TradeError> {
    match spec_batch_result(p, s, n) {
        Err(e) => Err(e),
        Ok(base) => match spec_split_buy(base as int, sch, has_referrer) {
            Err(e) => Err(e),
            Ok(b) => Ok(b.net_amount),
        },
    }
}

/// What a sell nets after fees: the batch price of the departing units,
/// split, with the shares withheld.
pub open spec fn spec_sell_net_result(
    p: CurveParameters,
    sch: FeeSchedule,
    s: int,
    n: int,
    has_referrer: bool,
) -> Result<u64, TradeError> {
    if n > s {
        Err(TradeError::InsufficientSupply)
    } else {
        match spec_batch_result(p, s - n, n) {
            Err(e) => Err(e),
            Ok(base) => Ok(spec_split_sell(base as int, sch, has_referrer).net_amount),
        }
    }
}

/// The total a buyer pays for `amount` units at `supply`, fees included.
pub fn get_buy_price_after_fee(
    params: &CurveParameters,
    schedule: &FeeSchedule,
    supply: u64,
    amount: u64,
    has_referrer: bool,
) -> (r: Result<u64, TradeError>)
    requires
        params.wf(),
        schedule.wf(),
    ensures
        r == spec_buy_total_result(*params, *schedule, supply as int, amount as int, has_referrer),
{
    let base = match params.batch_price(supply, amount) {
        Ok(v) => v,
        Err(e) => {
            return Err(e);
        },
    };
    match split_buy(base, schedule, has_referrer) {
        Ok(b) => Ok(b.net_amount),
        Err(e) => Err(e),
    }
}

/// The net a seller receives for `amount` units at `supply`, fees
/// withheld.
pub fn get_sell_price_after_fee(
    params: &CurveParameters,
    schedule: &FeeSchedule,
    supply: u64,
    amount: u64,
    has_referrer: bool,
) -> (r: Result<u64, TradeError>)
    requires
        params.wf(),
        schedule.wf(),
    ensures
        r == spec_sell_net_result(*params, *schedule, supply as int, amount as int, has_referrer),
{
    if amount > supply {
        return Err(TradeError::InsufficientSupply);
    }
    let base = match params.batch_price(supply - amount, amount) {
        Ok(v) => v,
        Err(e) => {
            return Err(e);
        },
    };
    Ok(split_sell(base, schedule, has_referrer).net_amount)
}

/// What `plan_buy` returns for every input: the first failing check
/// decides the error, in the fixed order amount, cap, deadline, curve,
/// fees, slippage.
pub open spec fn spec_plan_buy(
    p: CurveParameters,
    sch: FeeSchedule,
    m: Market,
    amount: int,
    max_payment: int,
    has_referrer: bool,
    max_per_trade: int,
    now: int,
    deadline: int,
) -> Result<TradeBreakdown, TradeError> {
    if amount == 0 {
        Err(TradeError::InvalidAmount)
    } else if amount > max_per_trade {
        Err(TradeError::ExceedsMaxPurchase)
    } else if now > deadline {
        Err(TradeError::TradeDeadlineExceeded)
    } else {
        match spec_batch_result(p, m.total_supply as int, amount) {
            Err(e) => Err(e),
            Ok(base) => match spec_split_buy(base as int, sch, has_referrer) {
                Err(e) => Err(e),
                Ok(b) => if b.net_amount > max_payment {
                    Err(TradeError::SlippageExceeded)
                } else {
                    Ok(b)
                },
            },
        }
    }
}

/// Validates and prices a buy without touching any state.
///
/// On success the returned breakdown is what settlement must move: the
/// base price to the subject and each fee to its beneficiary, summing to
/// `net_amount`, which respects the buyer's payment cap.
pub fn plan_buy(
    params: &CurveParameters,
    schedule: &FeeSchedule,
    market: &Market,
    amount: u64,
    max_payment: u64,
    has_referrer: bool,
    max_per_trade: u64,
    now: i64,
    deadline: i64,
) -> (r: Result<TradeBreakdown, TradeError>)
    requires
        params.wf(),
        schedule.wf(),
    ensures
        r == spec_plan_buy(
            *params,
            *schedule,
            *market,
            amount as int,
            max_payment as int,
            has_referrer,
            max_per_trade as int,
            now as int,
            deadline as int,
        ),
        r matches Ok(b) ==> {
            &&& b.net_amount == b.base_price + b.creator_fee + b.protocol_fee + b.referrer_fee
            &&& b.net_amount <= max_payment
        },
{
    if amount == 0 {
        return Err(TradeError::InvalidAmount);
    }
    if amount > max_per_trade {
        return Err(TradeError::ExceedsMaxPurchase);
    }
    if now > deadline {
        return Err(TradeError::TradeDeadlineExceeded);
    }
    let base = match params.batch_price(market.total_supply, amount) {
        Ok(v) => v,
        Err(e) => {
            return Err(e);
        },
    };
    let breakdown = match split_buy(base, schedule, has_referrer) {
        Ok(b) => b,
        Err(e) => {
            return Err(e);
        },
    };
    if breakdown.net_amount > max_payment {
        return Err(TradeError::SlippageExceeded);
    }
    Ok(breakdown)
}

/// What `plan_sell` returns for every input: the first failing check
/// decides the error, in the fixed order amount, cap, deadline, holding,
/// supply, curve, slippage.
pub open spec fn spec_plan_sell(
    p: CurveParameters,
    sch: FeeSchedule,
    m: Market,
    bal: HolderBalance,
    amount: int,
    min_proceeds: int,
    has_referrer: bool,
    max_per_trade: int,
    now: int,
    deadline: int,
) -> Result<TradeBreakdown, TradeError> {
    if amount == 0 {
        Err(TradeError::InvalidAmount)
    } else if amount > max_per_trade {
        Err(TradeError::ExceedsMaxPurchase)
    } else if now > deadline {
        Err(TradeError::TradeDeadlineExceeded)
    } else if amount > bal.amount {
        Err(TradeError::InsufficientKeys)
    } else if amount > m.total_supply {
        Err(TradeError::InsufficientSupply)
    } else {
        match spec_batch_result(p, m.total_supply - amount, amount) {
            Err(e) => Err(e),
            Ok(base) => {
                let b = spec_split_sell(base as int, sch, has_referrer);
                if b.net_amount < min_proceeds {
                    Err(TradeError::SlippageExceeded)
                } else {
                    Ok(b)
                }
            },
        }
    }
}

/// Validates and prices a sell without touching any state.
///
/// On success the returned breakdown is what settlement must move out of
/// escrow: `net_amount` to the seller and each fee to its beneficiary,
/// with the proceeds respecting the seller's floor.
pub fn plan_sell(
    params: &CurveParameters,
    schedule: &FeeSchedule,
    market: &Market,
    balance: &HolderBalance,
    amount: u64,
    min_proceeds: u64,
    has_referrer: bool,
    max_per_trade: u64,
    now: i64,
    deadline: i64,
) -> (r: Result<TradeBreakdown, TradeError>)
    requires
        params.wf(),
        schedule.wf(),
    ensures
        r == spec_plan_sell(
            *params,
            *schedule,
            *market,
            *balance,
            amount as int,
            min_proceeds as int,
            has_referrer,
            max_per_trade as int,
            now as int,
            deadline as int,
        ),
        r matches Ok(b) ==> {
            &&& b.net_amount == b.base_price - b.creator_fee - b.protocol_fee - b.referrer_fee
            &&& b.net_amount >= min_proceeds
        },
{
    if amount == 0 {
        return Err(TradeError::InvalidAmount);
    }
    if amount > max_per_trade {
        return Err(TradeError::ExceedsMaxPurchase);
    }
    if now > deadline {
        return Err(TradeError::TradeDeadlineExceeded);
    }
    if amount > balance.amount {
        return Err(TradeError::InsufficientKeys);
    }
    if amount > market.total_supply {
        return Err(TradeError::InsufficientSupply);
    }
    let base = match params.batch_price(market.total_supply - amount, amount) {
        Ok(v) => v,
        Err(e) => {
            return Err(e);
        },
    };
    let breakdown = split_sell(base, schedule, has_referrer);
    if breakdown.net_amount < min_proceeds {
        return Err(TradeError::SlippageExceeded);
    }
    Ok(breakdown)
}

/// What `buy` returns for every input: the plan's outcome, then the
/// ledger commit's.
pub open spec fn spec_buy_outcome(
    p: CurveParameters,
    sch: FeeSchedule,
    m: Market,
    bal: HolderBalance,
    amount: int,
    max_payment: int,
    has_referrer: bool,
    max_per_trade: int,
    now: int,
    deadline: int,
) -> Result<TradeBreakdown, TradeError> {
    match spec_plan_buy(
        p,
        sch,
        m,
        amount,
        max_payment,
        has_referrer,
        max_per_trade,
        now,
        deadline,
    ) {
        Err(e) => Err(e),
        Ok(b) => if m.total_volume + b.base_price > u64::MAX || bal.amount + amount > u64::MAX {
            Err(TradeError::Overflow)
        } else {
            Ok(b)
        },
    }
}

/// One whole buy as a single critical section: validate, price, split,
/// and commit the ledger change.
///
/// All-or-nothing: on any error the market and the balance are exactly
/// as they were — a failed trade, including one that merely exceeds the
/// buyer's payment cap, leaves no trace. The returned breakdown tells
/// the caller what settlement owes each beneficiary; a caller whose
/// transfers can fail part-way should instead run `plan_buy`, settle,
/// and only then `apply_buy`.
pub fn buy(
    params: &CurveParameters,
    schedule: &FeeSchedule,
    market: &mut Market,
    balance: &mut HolderBalance,
    amount: u64,
    max_payment: u64,
    has_referrer: bool,
    max_per_trade: u64,
    now: i64,
    deadline: i64,
) -> (r: Result<TradeBreakdown, TradeError>)
    requires
        params.wf(),
        schedule.wf(),
    ensures
        r == spec_buy_outcome(
            *params,
            *schedule,
            *old(market),
            *old(balance),
            amount as int,
            max_payment as int,
            has_referrer,
            max_per_trade as int,
            now as int,
            deadline as int,
        ),
        r matches Ok(b) ==> {
            &&& final(market).total_supply == old(market).total_supply + amount
            &&& final(market).total_supply <= params.max_supply
            &&& final(market).total_volume == old(market).total_volume + b.base_price
            &&& final(market).last_trade_at == now
            &&& final(market).subject_id == old(market).subject_id
            &&& final(market).created_at == old(market).created_at
            &&& final(balance).amount == old(balance).amount + amount
            &&& final(balance).last_trade_at == now
        },
        r is Err ==> *final(market) == *old(market) && *final(balance) == *old(balance),
{
    let breakdown = match plan_buy(
        params,
        schedule,
        market,
        amount,
        max_payment,
        has_referrer,
        max_per_trade,
        now,
        deadline,
    ) {
        Ok(b) => b,
        Err(e) => {
            return Err(e);
        },
    };
    match apply_buy(market, balance, amount, breakdown.base_price, now) {
        Ok(()) => Ok(breakdown),
        Err(e) => Err(e),
    }
}

/// What `sell` returns for every input: the plan's outcome, then the
/// ledger commit's.
pub open spec fn spec_sell_outcome(
    p: CurveParameters,
    sch: FeeSchedule,
    m: Market,
    bal: HolderBalance,
    amount: int,
    min_proceeds: int,
    has_referrer: bool,
    max_per_trade: int,
    now: int,
    deadline: int,
) -> Result<TradeBreakdown, TradeError> {
    match spec_plan_sell(
        p,
        sch,
        m,
        bal,
        amount,
        min_proceeds,
        has_referrer,
        max_per_trade,
        now,
        deadline,
    ) {
        Err(e) => Err(e),
        Ok(b) => if m.total_volume + b.base_price > u64::MAX {
            Err(TradeError::Overflow)
        } else {
            Ok(b)
        },
    }
}

/// One whole sell as a single critical section: validate, price, split,
/// and commit the ledger change.
///
/// All-or-nothing, as `buy`. A sale beyond the holding or the supply
/// fails before anything mutates; the supply and the balance never wrap.
/// A balance that the ledger leaves at exactly zero is the caller's
/// signal to drop the record.
pub fn sell(
    params: &CurveParameters,
    schedule: &FeeSchedule,
    market: &mut Market,
    balance: &mut HolderBalance,
    amount: u64,
    min_proceeds: u64,
    has_referrer: bool,
    max_per_trade: u64,
    now: i64,
    deadline: i64,
) -> (r: Result<TradeBreakdown, TradeError>)
    requires
        params.wf(),
        schedule.wf(),
    ensures
        r == spec_sell_outcome(
            *params,
            *schedule,
            *old(market),
            *old(balance),
            amount as int,
            min_proceeds as int,
            has_referrer,
            max_per_trade as int,
            now as int,
            deadline as int,
        ),
        r matches Ok(b) ==> {
            &&& final(market).total_supply == old(market).total_supply - amount
            &&& final(market).total_volume == old(market).total_volume + b.base_price
            &&& final(market).last_trade_at == now
            &&& final(market).subject_id == old(market).subject_id
            &&& final(market).created_at == old(market).created_at
            &&& final(balance).amount == old(balance).amount - amount
            &&& final(balance).last_trade_at == now
        },
        r is Err ==> *final(market) == *old(market) && *final(balance) == *old(balance),
{
    let breakdown = match plan_sell(
        params,
        schedule,
        market,
        balance,
        amount,
        min_proceeds,
        has_referrer,
        max_per_trade,
        now,
        deadline,
    ) {
        Ok(b) => b,
        Err(e) => {
            return Err(e);
        },
    };
    match apply_sell(market, balance, amount, breakdown.base_price, now) {
        Ok(()) => Ok(breakdown),
        Err(e) => Err(e),
    }
}

/// Whether `n` units are affordable at `supply` under a payment cap:
/// the after-fee total prices successfully and stays within the cap.
pub open spec fn spec_affordable(
    p: CurveParameters,
    sch: FeeSchedule,
    s: int,
    n: int,
    has_referrer: bool,
    max_payment: int,
) -> bool {
    match spec_buy_total_result(p, sch, s, n, has_referrer) {
        Ok(t) => t <= max_payment,
        Err(_) => false,
    }
}

/// The after-fee buy total is downward closed in the batch size: where a
/// wider batch prices successfully, every narrower one does too, for no
/// more.
pub proof fn lemma_buy_total_result_downward(
    p: CurveParameters,
    sch: FeeSchedule,
    s: int,
    n1: int,
    n2: int,
    has_referrer: bool,
)
    requires
        p.wf(),
        sch.wf(),
        0 <= s,
        0 <= n1 <= n2,
        spec_buy_total_result(p, sch, s, n2, has_referrer) is Ok,
    ensures
        spec_buy_total_result(p, sch, s, n1, has_referrer) is Ok,
        spec_buy_total_result(p, sch, s, n1, has_referrer)->Ok_0 <= spec_buy_total_result(
            p,
            sch,
            s,
            n2,
            has_referrer,
        )->Ok_0,
{
    crate::curve::lemma_batch_result_downward(p, s, n1, n2);
    let base1 = spec_batch_result(p, s, n1)->Ok_0;
    let base2 = spec_batch_result(p, s, n2)->Ok_0;
    crate::fees::lemma_buy_total_monotone(sch, base1 as int, base2 as int, has_referrer);
}

/// The largest whole number of units a buyer can afford at `supply`
/// under a payment cap, found by binary search over the after-fee total.
///
/// On success the result is affordable, and no larger amount within the
/// market's remaining room and the cap is: the search is exact, not an
/// estimate.
pub fn calculate_max_buy_amount(
    params: &CurveParameters,
    schedule: &FeeSchedule,
    supply: u64,
    max_payment: u64,
    has_referrer: bool,
) -> (r: Result<u64, TradeError>)
    requires
        params.wf(),
        schedule.wf(),
    ensures
        max_payment == 0 ==> r == Err::<u64, TradeError>(TradeError::InvalidAmount),
        max_payment > 0 && supply >= params.max_supply ==> r == Err::<u64, TradeError>(
            TradeError::InvalidSupply,
        ),
        r is Ok <==> max_payment > 0 && supply < params.max_supply,
        r matches Ok(n) ==> {
            let upper = if params.max_supply - supply < max_payment {
                params.max_supply - supply
            } else {
                max_payment as int
            };
            &&& n <= upper
            &&& spec_affordable(
                *params,
                *schedule,
                supply as int,
                n as int,
                has_referrer,
                max_payment as int,
            )
            &&& forall|k: int|
                n < k <= upper ==> !spec_affordable(
                    *params,
                    *schedule,
                    supply as int,
                    k,
                    has_referrer,
                    max_payment as int,
                )
        },
{
    if max_payment == 0 {
        return Err(TradeError::InvalidAmount);
    }
    if supply >= params.max_supply {
        return Err(TradeError::InvalidSupply);
    }
    let room = params.max_supply - supply;
    let upper = if room < max_payment {
        room
    } else {
        max_payment
    };
    let mut lo: u64 = 0;
    let mut hi: u64 = upper;
    while lo < hi
        invariant
            params.wf(),
            schedule.wf(),
            lo <= hi <= upper,
            spec_affordable(
                *params,
                *schedule,
                supply as int,
                lo as int,
                has_referrer,
                max_payment as int,
            ),
            forall|k: int|
                hi < k <= upper ==> !spec_affordable(
                    *params,
                    *schedule,
                    supply as int,
                    k,
                    has_referrer,
                    max_payment as int,
                ),
        decreases hi - lo,
    {
        let mid = hi - (hi - lo) / 2;
        let affordable = match get_buy_price_after_fee(
            params,
            schedule,
            supply,
            mid,
            has_referrer,
        ) {
            Ok(t) => t <= max_payment,
            Err(_) => false,
        };
        if affordable {
            lo = mid;
        } else {
            proof {
                assert forall|k: int| mid - 1 < k <= upper implies !spec_affordable(
                    *params,
                    *schedule,
                    supply as int,
                    k,
                    has_referrer,
                    max_payment as int,
                ) by {
                    if k <= hi && spec_affordable(
                        *params,
                        *schedule,
                        supply as int,
                        k,
                        has_referrer,
                        max_payment as int,
                    ) {
                        lemma_buy_total_result_downward(
                            *params,
                            *schedule,
                            supply as int,
                            mid as int,
                            k,
                            has_referrer,
                        );
                    }
                }
            }
            hi = mid - 1;
        }
    }
    Ok(lo)
}

/// The event record a committed trade produces for the external
/// observability collaborator. Emitting it is a pure notification: its
/// failure cannot undo the trade.
#[derive(Clone, Copy, Debug, PartialEq, Eq, Structural)]
pub struct TradeEvent {
    /// The subject whose keys traded.
    pub subject_id: u64,
    /// Who bought or sold.
    pub actor_id: u64,
    /// How many keys moved.
    pub amount: u64,
    /// The settlement breakdown of the trade.
    pub breakdown: TradeBreakdown,
    /// The market's supply after the commit.
    pub new_supply: u64,
    /// When the trade committed.
    pub timestamp: i64,
}

/// Assembles the event record for a trade that just committed against
/// `market`.
pub fn make_trade_event(
    market: &Market,
    actor_id: u64,
    amount: u64,
    breakdown: &TradeBreakdown,
    timestamp: i64,
) -> (e: TradeEvent)
    ensures
        e.subject_id == market.subject_id,
        e.actor_id == actor_id,
        e.amount == amount,
        e.breakdown == *breakdown,
        e.new_supply == market.total_supply,
        e.timestamp == timestamp,
{
    TradeEvent {
        subject_id: market.subject_id,
        actor_id,
        amount,
        breakdown: *breakdown,
        new_supply: market.total_supply,
        timestamp,
    }
}

/// A zero amount is a rejected no-op: the curve prices it at zero, every
/// fee of a zero base is zero, and both orchestrated paths refuse it
/// before any ledger mutation.
pub proof fn lemma_zero_amount_no_op(
    p: CurveParameters,
    sch: FeeSchedule,
    m: Market,
    bal: HolderBalance,
    max_payment: int,
    has_referrer: bool,
    max_per_trade: int,
    now: int,
    deadline: int,
)
    ensures
        spec_batch_result(p, m.total_supply as int, 0) == Ok::<u64, TradeError>(0u64),
        fee_sum(0, sch, has_referrer) == 0,
        spec_plan_buy(
            p,
            sch,
            m,
            0,
            max_payment,
            has_referrer,
            max_per_trade,
            now,
            deadline,
        ) == Err::<TradeBreakdown, TradeError>(TradeError::InvalidAmount),
        spec_plan_sell(
            p,
            sch,
            m,
            bal,
            0,
            max_payment,
            has_referrer,
            max_per_trade,
            now,
            deadline,
        ) == Err::<TradeBreakdown, TradeError>(TradeError::InvalidAmount),
{
}

} // verus!
