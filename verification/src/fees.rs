//! The fee waterfall: splitting a base price into creator, protocol and
//! referrer shares.
//!
//! Every share is `base_price * bps / 10000` with integer truncation, in
//! a fixed order (creator, then protocol, then referrer), so that a split
//! is reproducible byte for byte. Truncation losses stay with the
//! counterparty: the shares never sum past the base price.

use vstd::prelude::*;
use crate::errors::TradeError;

verus! {

/// One whole, in basis points.
pub const BASIS_POINTS: u16 = 10000;

/// The platform's fixed creator share, in basis points.
pub const CREATOR_SHARE_BPS: u16 = 500;

/// The platform's fixed protocol share, in basis points.
pub const PROTOCOL_SHARE_BPS: u16 = 250;

/// The platform's fixed referrer share, in basis points.
pub const REFERRER_SHARE_BPS: u16 = 100;

/// The basis-point shares taken out of a trade's base price.
///
/// Invariant: the three shares sum to at most one whole.
#[derive(Clone, Copy, Debug, PartialEq, Eq, Structural)]
pub struct FeeSchedule {
    /// Share paid to the subject whose keys are traded.
    pub creator_bps: u16,
    /// Share paid to the protocol treasury.
    pub protocol_bps: u16,
    /// Share paid to the referrer, where one exists.
    pub referrer_bps: u16,
}

impl FeeSchedule {
    /// The schedule invariant: the shares sum to at most 10000 bps.
    pub open spec fn wf(&self) -> bool {
        self.creator_bps + self.protocol_bps + self.referrer_bps <= 10000
    }

    /// Validates and builds a schedule; rejects shares above one whole.
    pub fn new(creator_bps: u16, protocol_bps: u16, referrer_bps: u16) -> (r: Result<
        FeeSchedule,
        TradeError,
    >)
        ensures
            r matches Ok(s) ==> s.wf() && s.creator_bps == creator_bps && s.protocol_bps
                == protocol_bps && s.referrer_bps == referrer_bps,
            r is Ok <==> creator_bps + protocol_bps + referrer_bps <= 10000,
            r is Err ==> r == Err::<FeeSchedule, TradeError>(TradeError::InvalidCurveParameters),
    {
        let total: u64 = creator_bps as u64 + protocol_bps as u64 + referrer_bps as u64;
        if total > 10000 {
            return Err(TradeError::InvalidCurveParameters);
        }
        Ok(FeeSchedule { creator_bps, protocol_bps, referrer_bps })
    }
}

/// One truncated basis-point share of a base amount.
pub open spec fn fee_part(base: int, bps: int) -> int {
    (base * bps) / 10000
}

/// The referrer share, zero where no referrer exists.
pub open spec fn referrer_part(base: int, s: FeeSchedule, has_referrer: bool) -> int {
    if has_referrer {
        fee_part(base, s.referrer_bps as int)
    } else {
        0
    }
}

/// The sum of the three shares taken from a base price.
pub open spec fn fee_sum(base: int, s: FeeSchedule, has_referrer: bool) -> int {
    fee_part(base, s.creator_bps as int) + fee_part(base, s.protocol_bps as int) + referrer_part(
        base,
        s,
        has_referrer,
    )
}

/// The total a buyer pays: the base price plus every share.
pub open spec fn spec_buy_total(base: int, s: FeeSchedule, has_referrer: bool) -> int {
    base + fee_sum(base, s, has_referrer)
}

/// The net a seller receives: the base price minus every share.
pub open spec fn spec_sell_net(base: int, s: FeeSchedule, has_referrer: bool) -> int {
    base - fee_sum(base, s, has_referrer)
}

/// The settlement breakdown of one trade.
///
/// For a buy, `net_amount` is the total the buyer pays: the base price
/// plus every fee. For a sell it is the seller's proceeds: the base
/// price minus every fee.
#[derive(Clone, Copy, Debug, PartialEq, Eq, Structural)]
pub struct TradeBreakdown {
    /// The bonding-curve price of the batch before fees.
    pub base_price: u64,
    /// The creator's share.
    pub creator_fee: u64,
    /// The protocol's share.
    pub protocol_fee: u64,
    /// The referrer's share, zero where no referrer exists.
    pub referrer_fee: u64,
    /// Total cost to the buyer, or net proceeds to the seller.
    pub net_amount: u64,
}

/// What `split_buy` returns for every input.
pub open spec fn spec_split_buy(base: int, s: FeeSchedule, has_referrer: bool) -> Result<
    TradeBreakdown,
    TradeError,
> {
    if spec_buy_total(base, s, has_referrer) > u64::MAX {
        Err(TradeError::Overflow)
    } else {
        Ok(
            (TradeBreakdown {
                base_price: base as u64,
                creator_fee: fee_part(base, s.creator_bps as int) as u64,
                protocol_fee: fee_part(base, s.protocol_bps as int) as u64,
                referrer_fee: referrer_part(base, s, has_referrer) as u64,
                net_amount: spec_buy_total(base, s, has_referrer) as u64,
            }),
        )
    }
}

/// What `split_sell` returns for every input.
pub open spec fn spec_split_sell(base: int, s: FeeSchedule, has_referrer: bool) -> TradeBreakdown {
    TradeBreakdown {
        base_price: base as u64,
        creator_fee: fee_part(base, s.creator_bps as int) as u64,
        protocol_fee: fee_part(base, s.protocol_bps as int) as u64,
        referrer_fee: referrer_part(base, s, has_referrer) as u64,
        net_amount: spec_sell_net(base, s, has_referrer) as u64,
    }
}

/// Three truncated quotients over one denominator never exceed the
/// quotient of the summed numerators.
proof fn lemma_floor_sum_le(a: int, b: int, c: int, d: int)
    requires
        0 <= a,
        0 <= b,
        0 <= c,
        0 < d,
    ensures
        a / d + b / d + c / d <= (a + b + c) / d,
{
    vstd::arithmetic::div_mod::lemma_fundamental_div_mod(a, d);
    vstd::arithmetic::div_mod::lemma_fundamental_div_mod(b, d);
    vstd::arithmetic::div_mod::lemma_fundamental_div_mod(c, d);
    vstd::arithmetic::div_mod::lemma_remainder_lower(a, d);
    vstd::arithmetic::div_mod::lemma_remainder_lower(b, d);
    vstd::arithmetic::div_mod::lemma_remainder_lower(c, d);
    let qa = a / d;
    let qb = b / d;
    let qc = c / d;
    let q = qa + qb + qc;
    assert(d * qa + d * qb + d * qc == d * (qa + qb + qc)) by (nonlinear_arith);
    assert(d * q <= a + b + c);
    vstd::arithmetic::div_mod::lemma_div_is_ordered(d * q, a + b + c, d);
    vstd::arithmetic::div_mod::lemma_div_multiples_vanish(q, d);
}

/// Fee conservation bound: under a well-formed schedule the three shares
/// are each non-negative and together never exceed the base price, so a
/// seller's net proceeds never go negative and the platform never takes
/// more than the schedule nominally allows.
pub proof fn lemma_fee_sum_bounded(base: int, s: FeeSchedule, has_referrer: bool)
    requires
        s.wf(),
        0 <= base,
    ensures
        0 <= fee_part(base, s.creator_bps as int) <= base,
        0 <= fee_part(base, s.protocol_bps as int) <= base,
        0 <= referrer_part(base, s, has_referrer) <= base,
        0 <= fee_sum(base, s, has_referrer) <= base,
{
    let c = s.creator_bps as int;
    let p = s.protocol_bps as int;
    let r = if has_referrer {
        s.referrer_bps as int
    } else {
        0
    };
    assert(base * 0 == 0) by (nonlinear_arith);
    vstd::arithmetic::mul::lemma_mul_inequality(0, c, base);
    vstd::arithmetic::mul::lemma_mul_inequality(0, p, base);
    vstd::arithmetic::mul::lemma_mul_inequality(0, r, base);
    assert(c * base == base * c) by (nonlinear_arith);
    assert(p * base == base * p) by (nonlinear_arith);
    assert(r * base == base * r) by (nonlinear_arith);
    vstd::arithmetic::div_mod::lemma_div_pos_is_pos(base * c, 10000);
    vstd::arithmetic::div_mod::lemma_div_pos_is_pos(base * p, 10000);
    vstd::arithmetic::div_mod::lemma_div_pos_is_pos(base * r, 10000);
    lemma_floor_sum_le(base * c, base * p, base * r, 10000);
    assert(base * c + base * p + base * r == base * (c + p + r)) by (nonlinear_arith);
    vstd::arithmetic::mul::lemma_mul_inequality(c + p + r, 10000, base);
    assert((c + p + r) * base == base * (c + p + r)) by (nonlinear_arith);
    assert(10000 * base == base * 10000) by (nonlinear_arith);
    vstd::arithmetic::div_mod::lemma_div_is_ordered(base * (c + p + r), base * 10000, 10000);
    vstd::arithmetic::div_mod::lemma_div_multiples_vanish(base, 10000);
    vstd::arithmetic::div_mod::lemma_div_is_ordered(base * c, base * (c + p + r), 10000);
    assert(referrer_part(base, s, has_referrer) == (base * r) / 10000);
}

/// A buyer's after-fee total is non-negative and grows with the base
/// price.
pub proof fn lemma_buy_total_monotone(s: FeeSchedule, b1: int, b2: int, has_referrer: bool)
    requires
        s.wf(),
        0 <= b1 <= b2,
    ensures
        0 <= spec_buy_total(b1, s, has_referrer) <= spec_buy_total(b2, s, has_referrer),
{
    lemma_fee_sum_bounded(b1, s, has_referrer);
    lemma_fee_sum_bounded(b2, s, has_referrer);
    let c = s.creator_bps as int;
    let p = s.protocol_bps as int;
    let r = if has_referrer {
        s.referrer_bps as int
    } else {
        0
    };
    vstd::arithmetic::mul::lemma_mul_inequality(b1, b2, c);
    vstd::arithmetic::mul::lemma_mul_inequality(b1, b2, p);
    vstd::arithmetic::mul::lemma_mul_inequality(b1, b2, r);
    assert(b1 * c == c * b1 && b2 * c == c * b2 && b1 * p == p * b1 && b2 * p == p * b2 && b1 * r
        == r * b1 && b2 * r == r * b2) by (nonlinear_arith);
    vstd::arithmetic::div_mod::lemma_div_is_ordered(b1 * c, b2 * c, 10000);
    vstd::arithmetic::div_mod::lemma_div_is_ordered(b1 * p, b2 * p, 10000);
    vstd::arithmetic::div_mod::lemma_div_is_ordered(b1 * r, b2 * r, 10000);
}

/// One truncated basis-point share of a base amount; never more than the
/// amount itself while the share is at most one whole.
pub fn fee_amount(base_price: u64, bps: u16) -> (r: u64)
    requires
        bps <= 10000,
    ensures
        r == fee_part(base_price as int, bps as int),
        r <= base_price,
{
    proof {
        let b = base_price as int;
        let c = bps as int;
        vstd::arithmetic::mul::lemma_mul_inequality(c, 10000, b);
        assert(c * b == b * c) by (nonlinear_arith);
        assert(10000 * b == b * 10000) by (nonlinear_arith);
        vstd::arithmetic::div_mod::lemma_div_is_ordered(b * c, b * 10000, 10000);
        vstd::arithmetic::div_mod::lemma_div_multiples_vanish(b, 10000);
        vstd::arithmetic::div_mod::lemma_div_pos_is_pos(b * c, 10000);
    }
    ((base_price as u128) * (bps as u128) / 10000) as u64
}

/// Splits a buy's base price into its settlement breakdown.
///
/// Fee conservation: on success the total the buyer pays is exactly the
/// base price plus the creator, protocol and referrer fees. Fails
/// `Overflow` only where that total does not fit 64 bits.
pub fn split_buy(base_price: u64, schedule: &FeeSchedule, has_referrer: bool) -> (r: Result<
    TradeBreakdown,
    TradeError,
>)
    requires
        schedule.wf(),
    ensures
        r == spec_split_buy(base_price as int, *schedule, has_referrer),
        r matches Ok(b) ==> {
            &&& b.net_amount == b.base_price + b.creator_fee + b.protocol_fee + b.referrer_fee
            &&& b.base_price == base_price
        },
        r is Ok <==> spec_buy_total(base_price as int, *schedule, has_referrer) <= u64::MAX,
{
    proof {
        lemma_fee_sum_bounded(base_price as int, *schedule, has_referrer);
    }
    let creator_fee = fee_amount(base_price, schedule.creator_bps);
    let protocol_fee = fee_amount(base_price, schedule.protocol_bps);
    let referrer_fee = if has_referrer {
        fee_amount(base_price, schedule.referrer_bps)
    } else {
        0
    };
    let total: u128 = base_price as u128 + creator_fee as u128 + protocol_fee as u128
        + referrer_fee as u128;
    if total > u64::MAX as u128 {
        return Err(TradeError::Overflow);
    }
    Ok(
        TradeBreakdown {
            base_price,
            creator_fee,
            protocol_fee,
            referrer_fee,
            net_amount: total as u64,
        },
    )
}

/// Splits a sell's base price into its settlement breakdown.
///
/// Fee conservation: the seller's net proceeds are exactly the base
/// price minus the creator, protocol and referrer fees. The shares of a
/// well-formed schedule never exceed the base price, so the subtraction
/// cannot underflow and the split always succeeds.
pub fn split_sell(base_price: u64, schedule: &FeeSchedule, has_referrer: bool) -> (b:
    TradeBreakdown)
    requires
        schedule.wf(),
    ensures
        b == spec_split_sell(base_price as int, *schedule, has_referrer),
        b.net_amount == b.base_price - b.creator_fee - b.protocol_fee - b.referrer_fee,
        b.base_price == base_price,
{
    proof {
        lemma_fee_sum_bounded(base_price as int, *schedule, has_referrer);
    }
    let creator_fee = fee_amount(base_price, schedule.creator_bps);
    let protocol_fee = fee_amount(base_price, schedule.protocol_bps);
    let referrer_fee = if has_referrer {
        fee_amount(base_price, schedule.referrer_bps)
    } else {
        0
    };
    let net_amount = base_price - creator_fee - protocol_fee - referrer_fee;
    TradeBreakdown { base_price, creator_fee, protocol_fee, referrer_fee, net_amount }
}

/// How one trade's gross amount is divided under the platform's fixed
/// shares: what each beneficiary receives and what remains with the
/// counterparty.
#[derive(Clone, Copy, Debug, PartialEq, Eq, Structural)]
pub struct RevenueDistribution {
    /// The creator's share of the amount.
    pub creator_amount: u64,
    /// The protocol treasury's share.
    pub protocol_amount: u64,
    /// The referrer's share, zero where no referrer exists.
    pub referrer_amount: u64,
    /// What is left after every share, including truncation losses.
    pub remaining_amount: u64,
}

/// The platform's fixed schedule: 5% creator, 2.5% protocol, 1% referrer.
pub open spec fn platform_schedule() -> FeeSchedule {
    FeeSchedule { creator_bps: 500, protocol_bps: 250, referrer_bps: 100 }
}

/// What `calculate_revenue_distribution` returns for every input.
pub open spec fn spec_revenue_distribution(total: int, has_referrer: bool) -> Result<
    RevenueDistribution,
    TradeError,
> {
    if total == 0 {
        Err(TradeError::InvalidAmount)
    } else {
        Ok(
            (RevenueDistribution {
                creator_amount: fee_part(total, 500) as u64,
                protocol_amount: fee_part(total, 250) as u64,
                referrer_amount: referrer_part(total, platform_schedule(), has_referrer) as u64,
                remaining_amount: spec_sell_net(total, platform_schedule(), has_referrer) as u64,
            }),
        )
    }
}

/// Splits a strictly positive gross amount under the platform's fixed
/// shares. A zero amount is rejected as `InvalidAmount`: this entry
/// point serves call sites that demand a strictly positive trade.
pub fn calculate_revenue_distribution(total_amount: u64, has_referrer: bool) -> (r: Result<
    RevenueDistribution,
    TradeError,
>)
    ensures
        r == spec_revenue_distribution(total_amount as int, has_referrer),
        r matches Ok(d) ==> d.creator_amount + d.protocol_amount + d.referrer_amount
            + d.remaining_amount == total_amount,
        r is Ok <==> total_amount > 0,
{
    if total_amount == 0 {
        return Err(TradeError::InvalidAmount);
    }
    let schedule = FeeSchedule { creator_bps: 500, protocol_bps: 250, referrer_bps: 100 };
    let split = split_sell(total_amount, &schedule, has_referrer);
    Ok(
        RevenueDistribution {
            creator_amount: split.creator_fee,
            protocol_amount: split.protocol_fee,
            referrer_amount: split.referrer_fee,
            remaining_amount: split.net_amount,
        },
    )
}

/// The volume-discount step of the dynamic fee rate.
pub open spec fn spec_volume_step(base: int, volume_24h: int) -> Result<int, TradeError> {
    if volume_24h > 100_000_000_000 {
        if base * 90 > u16::MAX {
            Err(TradeError::Overflow)
        } else {
            Ok((base * 90) / 100)
        }
    } else if volume_24h > 10_000_000_000 {
        if base * 95 > u16::MAX {
            Err(TradeError::Overflow)
        } else {
            Ok((base * 95) / 100)
        }
    } else {
        Ok(base)
    }
}

/// The holder-count-discount step of the dynamic fee rate.
pub open spec fn spec_holder_step(fee: int, holder_count: int) -> Result<int, TradeError> {
    if holder_count > 1000 {
        if fee * 85 > u16::MAX {
            Err(TradeError::Overflow)
        } else {
            Ok((fee * 85) / 100)
        }
    } else if holder_count > 100 {
        if fee * 90 > u16::MAX {
            Err(TradeError::Overflow)
        } else {
            Ok((fee * 90) / 100)
        }
    } else {
        Ok(fee)
    }
}

/// What `calculate_dynamic_fee_rate` returns for every input.
pub open spec fn spec_dynamic_fee_result(base: int, volume_24h: int, holder_count: int) -> Result<
    u16,
    TradeError,
> {
    match spec_volume_step(base, volume_24h) {
        Err(e) => Err(e),
        Ok(f) => match spec_holder_step(f, holder_count) {
            Err(e) => Err(e),
            Ok(g) => Ok(
                (if g >= base / 2 {
                    g
                } else {
                    base / 2
                }) as u16,
            ),
        },
    }
}

/// An activity-adjusted fee rate: high 24-hour volume and a broad holder
/// base earn percentage discounts off the base rate, floored at half of
/// it. The discounts truncate, and a product that leaves 16 bits is a
/// hard `Overflow`.
pub fn calculate_dynamic_fee_rate(base_fee_bps: u16, volume_24h: u64, holder_count: u32) -> (r:
    Result<u16, TradeError>)
    ensures
        r == spec_dynamic_fee_result(base_fee_bps as int, volume_24h as int, holder_count as int),
{
    let adjusted: u16 = if volume_24h > 100_000_000_000 {
        match base_fee_bps.checked_mul(90) {
            Some(v) => v / 100,
            None => {
                return Err(TradeError::Overflow);
            },
        }
    } else if volume_24h > 10_000_000_000 {
        match base_fee_bps.checked_mul(95) {
            Some(v) => v / 100,
            None => {
                return Err(TradeError::Overflow);
            },
        }
    } else {
        base_fee_bps
    };
    let adjusted: u16 = if holder_count > 1000 {
        match adjusted.checked_mul(85) {
            Some(v) => v / 100,
            None => {
                return Err(TradeError::Overflow);
            },
        }
    } else if holder_count > 100 {
        match adjusted.checked_mul(90) {
            Some(v) => v / 100,
            None => {
                return Err(TradeError::Overflow);
            },
        }
    } else {
        adjusted
    };
    let min_fee = base_fee_bps / 2;
    if adjusted >= min_fee {
        Ok(adjusted)
    } else {
        Ok(min_fee)
    }
}

/// What `calculate_creator_lifetime_value` returns for every input.
pub open spec fn spec_lifetime_value_result(supply: int, price: int, volume: int) -> Result<
    u64,
    TradeError,
> {
    if supply * price > u64::MAX {
        Err(TradeError::Overflow)
    } else {
        let market_cap = supply * price;
        let multiplier = if volume > 0 {
            (if volume / 1_000_000_000 < 10 {
                volume / 1_000_000_000
            } else {
                10
            }) + 10
        } else {
            10
        };
        if market_cap * 500 > u64::MAX {
            Err(TradeError::Overflow)
        } else if ((market_cap * 500) / 10000) * multiplier > u64::MAX {
            Err(TradeError::Overflow)
        } else {
            Ok(((((market_cap * 500) / 10000) * multiplier) / 10) as u64)
        }
    }
}

/// An estimate of a creator's lifetime fee revenue: the creator share of
/// the market cap, scaled by a volume multiplier between 1x and 2x in
/// tenths. Every product is overflow-checked.
pub fn calculate_creator_lifetime_value(
    total_key_supply: u64,
    current_price: u64,
    total_volume: u64,
) -> (r: Result<u64, TradeError>)
    ensures
        r == spec_lifetime_value_result(
            total_key_supply as int,
            current_price as int,
            total_volume as int,
        ),
{
    let market_cap = match total_key_supply.checked_mul(current_price) {
        Some(v) => v,
        None => {
            return Err(TradeError::Overflow);
        },
    };
    let volume_multiplier: u64 = if total_volume > 0 {
        let volume_factor = total_volume / 1_000_000_000;
        let volume_factor = if volume_factor < 10 {
            volume_factor
        } else {
            10
        };
        volume_factor + 10
    } else {
        10
    };
    let scaled = match market_cap.checked_mul(500) {
        Some(v) => v,
        None => {
            return Err(TradeError::Overflow);
        },
    };
    let share = scaled / 10000;
    let product = match share.checked_mul(volume_multiplier) {
        Some(v) => v,
        None => {
            return Err(TradeError::Overflow);
        },
    };
    Ok(product / 10)
}

/// A profile's running trade-volume counters.
#[derive(Clone, Copy, Debug, PartialEq, Eq, Structural)]
pub struct RevenueMetrics {
    /// Lifetime volume across both sides.
    pub total_volume: u64,
    /// Lifetime buy-side volume.
    pub buy_volume: u64,
    /// Lifetime sell-side volume.
    pub sell_volume: u64,
    /// When the profile last traded.
    pub last_trade_timestamp: i64,
}

/// Adds one trade to a profile's volume counters and touches its trade
/// timestamp. Either every counter fits and all are updated, or nothing
/// changes and the call fails `Overflow`.
pub fn update_revenue_metrics(
    metrics: &mut RevenueMetrics,
    trade_amount: u64,
    is_buy: bool,
    now: i64,
) -> (r: Result<(), TradeError>)
    ensures
        r is Ok <==> {
            &&& old(metrics).total_volume + trade_amount <= u64::MAX
            &&& (is_buy ==> old(metrics).buy_volume + trade_amount <= u64::MAX)
            &&& (!is_buy ==> old(metrics).sell_volume + trade_amount <= u64::MAX)
        },
        r is Ok ==> {
            &&& final(metrics).total_volume == old(metrics).total_volume + trade_amount
            &&& final(metrics).buy_volume == if is_buy {
                old(metrics).buy_volume + trade_amount
            } else {
                old(metrics).buy_volume as int
            }
            &&& final(metrics).sell_volume == if is_buy {
                old(metrics).sell_volume as int
            } else {
                old(metrics).sell_volume + trade_amount
            }
            &&& final(metrics).last_trade_timestamp == now
        },
        r is Err ==> *final(metrics) == *old(metrics) && r == Err::<(), TradeError>(
            TradeError::Overflow,
        ),
{
    let new_total = match metrics.total_volume.checked_add(trade_amount) {
        Some(v) => v,
        None => {
            return Err(TradeError::Overflow);
        },
    };
    if is_buy {
        let new_buy = match metrics.buy_volume.checked_add(trade_amount) {
            Some(v) => v,
            None => {
                return Err(TradeError::Overflow);
            },
        };
        metrics.buy_volume = new_buy;
    } else {
        let new_sell = match metrics.sell_volume.checked_add(trade_amount) {
            Some(v) => v,
            None => {
                return Err(TradeError::Overflow);
            },
        };
        metrics.sell_volume = new_sell;
    }
    metrics.total_volume = new_total;
    metrics.last_trade_timestamp = now;
    Ok(())
}

} // verus!
