use solsocial::errors::TradeError;
use solsocial::fees::calculate_creator_lifetime_value;
use solsocial::fees::calculate_dynamic_fee_rate;
use solsocial::fees::calculate_revenue_distribution;
use solsocial::fees::update_revenue_metrics;
use solsocial::fees::RevenueMetrics;

#[test]
fn test_revenue_distribution_calculation() {
    let total_amount = 1_000_000_000; // 1 SOL
    let distribution = calculate_revenue_distribution(total_amount, true).unwrap();

    assert_eq!(distribution.creator_amount, 50_000_000); // 5%
    assert_eq!(distribution.protocol_amount, 25_000_000); // 2.5%
    assert_eq!(distribution.referrer_amount, 10_000_000); // 1%
    assert_eq!(distribution.remaining_amount, 915_000_000); // 91.5%
}

#[test]
fn test_revenue_distribution_no_referrer() {
    let total_amount = 1_000_000_000; // 1 SOL
    let distribution = calculate_revenue_distribution(total_amount, false).unwrap();

    assert_eq!(distribution.creator_amount, 50_000_000); // 5%
    assert_eq!(distribution.protocol_amount, 25_000_000); // 2.5%
    assert_eq!(distribution.referrer_amount, 0); // 0%
    assert_eq!(distribution.remaining_amount, 925_000_000); // 92.5%
}

#[test]
fn test_dynamic_fee_calculation() {
    let base_fee = 500; // 5%

    // Low volume, low holders
    let fee1 = calculate_dynamic_fee_rate(base_fee, 1_000_000_000, 10).unwrap();
    assert_eq!(fee1, base_fee);

    // High volume, high holders
    let fee2 = calculate_dynamic_fee_rate(base_fee, 200_000_000_000, 2000).unwrap();
    assert!(fee2 < base_fee);
}

#[test]
fn test_revenue_distribution_zero_amount() {
    assert_eq!(
        calculate_revenue_distribution(0, true),
        Err(TradeError::InvalidAmount)
    );
}

#[test]
fn test_revenue_distribution_conserves_total() {
    let distribution = calculate_revenue_distribution(999_999_999, true).unwrap();
    let back = distribution.creator_amount
        + distribution.protocol_amount
        + distribution.referrer_amount
        + distribution.remaining_amount;
    assert_eq!(back, 999_999_999);
}

#[test]
fn test_dynamic_fee_exact_double_discount() {
    // 500 * 90 / 100 = 450, then 450 * 85 / 100 = 382 (truncated).
    let fee = calculate_dynamic_fee_rate(500, 200_000_000_000, 2000).unwrap();
    assert_eq!(fee, 382);
}

#[test]
fn test_dynamic_fee_floor_at_half_base() {
    // 100 -> 90 -> 76, still above the floor of 50.
    let fee = calculate_dynamic_fee_rate(100, 200_000_000_000, 2000).unwrap();
    assert_eq!(fee, 76);
    // A discount chain can never end below base / 2.
    assert!(fee >= 100 / 2);
}

#[test]
fn test_dynamic_fee_overflow() {
    // 65535 * 90 does not fit 16 bits.
    assert_eq!(
        calculate_dynamic_fee_rate(65535, 200_000_000_000, 10),
        Err(TradeError::Overflow)
    );
}

#[test]
fn test_creator_lifetime_value_exact() {
    // market cap 10^9, multiplier 15 tenths: 5e7 * 15 / 10.
    let v = calculate_creator_lifetime_value(1000, 1_000_000, 5_000_000_000).unwrap();
    assert_eq!(v, 75_000_000);
}

#[test]
fn test_creator_lifetime_value_no_volume() {
    // multiplier stays at 10 tenths: exactly the 5% share of the cap.
    let v = calculate_creator_lifetime_value(1000, 1_000_000, 0).unwrap();
    assert_eq!(v, 50_000_000);
}

#[test]
fn test_creator_lifetime_value_overflow() {
    assert_eq!(
        calculate_creator_lifetime_value(u64::MAX, 2, 0),
        Err(TradeError::Overflow)
    );
}

#[test]
fn test_update_revenue_metrics_buy_and_sell() {
    let mut m = RevenueMetrics {
        total_volume: 10,
        buy_volume: 4,
        sell_volume: 6,
        last_trade_timestamp: 0,
    };
    update_revenue_metrics(&mut m, 5, true, 77).unwrap();
    assert_eq!(m.total_volume, 15);
    assert_eq!(m.buy_volume, 9);
    assert_eq!(m.sell_volume, 6);
    assert_eq!(m.last_trade_timestamp, 77);
    update_revenue_metrics(&mut m, 2, false, 99).unwrap();
    assert_eq!(m.total_volume, 17);
    assert_eq!(m.buy_volume, 9);
    assert_eq!(m.sell_volume, 8);
    assert_eq!(m.last_trade_timestamp, 99);
}

#[test]
fn test_update_revenue_metrics_overflow_leaves_state() {
    let mut m = RevenueMetrics {
        total_volume: u64::MAX,
        buy_volume: 0,
        sell_volume: 0,
        last_trade_timestamp: 5,
    };
    let before = m;
    assert_eq!(
        update_revenue_metrics(&mut m, 1, true, 77),
        Err(TradeError::Overflow)
    );
    assert_eq!(m, before);
}
