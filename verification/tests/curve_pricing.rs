use solsocial::curve::CurveParameters;
use solsocial::errors::TradeError;
use solsocial::fees::split_buy;
use solsocial::fees::split_sell;
use solsocial::fees::FeeSchedule;

fn default_params() -> CurveParameters {
    CurveParameters::new(1_000_000, 16_000, 1_000_000_000, 1_000_000_000_000).unwrap()
}

fn default_schedule() -> FeeSchedule {
    FeeSchedule::new(500, 250, 0).unwrap()
}

#[test]
fn test_curve_parameter_validation() {
    assert!(CurveParameters::new(1, 1, 1, 1).is_ok());
    assert_eq!(
        CurveParameters::new(0, 16_000, 1_000_000_000, 10),
        Err(TradeError::InvalidCurveParameters)
    );
    assert_eq!(
        CurveParameters::new(1_000_000, 0, 1_000_000_000, 10),
        Err(TradeError::InvalidCurveParameters)
    );
    assert_eq!(
        CurveParameters::new(1_000_000, 16_000, 0, 10),
        Err(TradeError::InvalidCurveParameters)
    );
    assert_eq!(
        CurveParameters::new(1_000_000, 16_000, 1_000_000_000, 0),
        Err(TradeError::InvalidCurveParameters)
    );
}

#[test]
fn test_fee_schedule_validation() {
    assert!(FeeSchedule::new(5000, 4000, 1000).is_ok());
    assert_eq!(
        FeeSchedule::new(5000, 4000, 1001),
        Err(TradeError::InvalidCurveParameters)
    );
}

#[test]
fn test_price_at_zero_supply_is_base_price() {
    let p = default_params();
    assert_eq!(p.price_of_supply(0).unwrap(), 1_000_000);
}

#[test]
fn test_price_exact_at_thousand() {
    // 1000^2 * 16000 / 10^9 = 16, on top of the base price.
    let p = default_params();
    assert_eq!(p.price_of_supply(1000).unwrap(), 1_000_016);
}

#[test]
fn test_price_invalid_supply() {
    let p = CurveParameters::new(1_000_000, 16_000, 1_000_000_000, 100).unwrap();
    assert_eq!(p.price_of_supply(101), Err(TradeError::InvalidSupply));
}

#[test]
fn test_price_overflow() {
    // max_supply^2 * slope leaves 128 bits.
    let p = CurveParameters::new(1, u64::MAX, 1, u64::MAX).unwrap();
    assert_eq!(p.price_of_supply(u64::MAX), Err(TradeError::Overflow));
}

#[test]
fn scenario_buy_ten_at_zero_supply() {
    // base_price=1_000_000, slope=16_000, precision=10^9, supply=0,
    // amount=10, creator 500 bps, protocol 250 bps, no referrer.
    let p = default_params();
    let base = p.batch_price(0, 10).unwrap();
    // The quadratic term truncates to zero here: 16000 * 285 / 10^9 == 0.
    assert_eq!(base, 10_000_000);
    let b = split_buy(base, &default_schedule(), false).unwrap();
    assert_eq!(b.creator_fee, 500_000);
    assert_eq!(b.protocol_fee, 250_000);
    assert_eq!(b.referrer_fee, 0);
    // total == base * 1.0075, truncated in the fixed order.
    assert_eq!(b.net_amount, 10_750_000);
    assert_eq!(b.net_amount, base + base * 500 / 10_000 + base * 250 / 10_000);
}

#[test]
fn scenario_sell_ten_at_supply_ten_matches_buy() {
    // Selling the same batch back reproduces the buy's base price
    // bit for bit.
    let p = default_params();
    let bought = p.batch_price(0, 10).unwrap();
    let sold = p.get_sell_price(10, 10).unwrap();
    assert_eq!(sold, bought);
    assert_eq!(sold, 10_000_000);
}

#[test]
fn test_buy_sell_symmetry() {
    let p = default_params();
    let supply = 1000;
    let amount = 100;
    let buy_price = p.get_buy_price(supply, amount).unwrap();
    let sell_price = p.get_sell_price(supply + amount, amount).unwrap();
    assert_eq!(buy_price, sell_price);
    assert_eq!(buy_price, 100_001_763);
}

#[test]
fn test_monotonic_pricing() {
    let p = default_params();
    let at_lower = p.batch_price(1000, 100).unwrap();
    let at_higher = p.batch_price(2000, 100).unwrap();
    assert!(at_lower < at_higher);
    assert_eq!(at_lower, 100_001_763);
    assert_eq!(at_higher, 100_006_722);
}

#[test]
fn test_zero_amount_prices_at_zero() {
    let p = default_params();
    assert_eq!(p.batch_price(12345, 0).unwrap(), 0);
    assert_eq!(p.batch_price_trapezoid(12345, 0).unwrap(), 0);
    let b = split_sell(0, &default_schedule(), true);
    assert_eq!(b.creator_fee, 0);
    assert_eq!(b.protocol_fee, 0);
    assert_eq!(b.referrer_fee, 0);
    assert_eq!(b.net_amount, 0);
}

#[test]
fn test_batch_price_equals_per_unit_sum_when_precision_is_one() {
    // With precision 1 nothing truncates, so the closed form reproduces
    // the unit-by-unit sum exactly.
    let p = CurveParameters::new(5, 3, 1, 10_000).unwrap();
    let mut looped: u64 = 0;
    for k in 7..12 {
        looped += p.price_of_supply(k).unwrap();
    }
    assert_eq!(p.batch_price(7, 5).unwrap(), looped);
    assert_eq!(looped, 1270);
}

#[test]
fn test_trapezoid_is_a_distinct_lower_precision_mode() {
    let p = default_params();
    // amount * (price(s) + price(s+amount)) / 2, truncated once.
    let expected = (p.price_of_supply(1000).unwrap() + p.price_of_supply(1100).unwrap()) / 2 * 100;
    assert_eq!(p.batch_price_trapezoid(1000, 100).unwrap(), expected);
    assert_eq!(expected, 100_001_700);
    // It approximates, but does not equal, the exact discrete sum.
    assert_ne!(
        p.batch_price_trapezoid(1000, 100).unwrap(),
        p.batch_price(1000, 100).unwrap()
    );
}

#[test]
fn test_batch_exceeds_max_supply() {
    let p = CurveParameters::new(1_000_000, 16_000, 1_000_000_000, 100).unwrap();
    assert_eq!(p.batch_price(95, 6), Err(TradeError::ExceedsMaxSupply));
    assert!(p.batch_price(95, 5).is_ok());
}

#[test]
fn test_sell_more_than_supply() {
    let p = default_params();
    assert_eq!(p.get_sell_price(10, 11), Err(TradeError::InsufficientSupply));
}

#[test]
fn test_market_cap_and_liquidity() {
    let p = default_params();
    // 1_000_016 * 1000
    assert_eq!(p.get_market_cap(1000).unwrap(), 1_000_016_000);
    assert_eq!(p.get_liquidity(1000).unwrap(), p.batch_price(0, 1000).unwrap());
    let stats = p.get_curve_stats(1000).unwrap();
    assert_eq!(stats.current_price, 1_000_016);
    assert_eq!(stats.market_cap, 1_000_016_000);
    assert_eq!(stats.liquidity, p.get_liquidity(1000).unwrap());
    assert_eq!(stats.supply, 1000);
    assert_eq!(stats.max_supply, 1_000_000_000_000);
}

#[test]
fn test_error_description_is_nonempty() {
    assert!(!TradeError::Overflow.describe().is_empty());
    assert_eq!(TradeError::Overflow.describe(), "arithmetic overflow");
}

#[test]
fn test_insufficient_funds_description() {
    // The settlement collaborator's error; the core never raises it.
    assert_eq!(
        TradeError::InsufficientFunds.describe(),
        "insufficient funds"
    );
}
