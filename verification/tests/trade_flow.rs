use solsocial::curve::CurveParameters;
use solsocial::errors::TradeError;
use solsocial::fees::FeeSchedule;
use solsocial::ledger::apply_buy;
use solsocial::ledger::apply_sell;
use solsocial::ledger::HolderBalance;
use solsocial::ledger::KeysGlobalState;
use solsocial::ledger::Market;
use solsocial::trade::buy;
use solsocial::trade::calculate_max_buy_amount;
use solsocial::trade::get_buy_price_after_fee;
use solsocial::trade::get_sell_price_after_fee;
use solsocial::trade::plan_buy;
use solsocial::trade::plan_sell;
use solsocial::trade::sell;

fn default_params() -> CurveParameters {
    CurveParameters::new(1_000_000, 16_000, 1_000_000_000, 1_000_000_000_000).unwrap()
}

fn default_schedule() -> FeeSchedule {
    FeeSchedule::new(500, 250, 0).unwrap()
}

const CAP: u64 = 1000;
const NOW: i64 = 1_700_000_000;
const DEADLINE: i64 = 1_700_000_060;

#[test]
fn test_buy_then_sell_round_trip() {
    let p = default_params();
    let s = default_schedule();
    let mut market = Market::new(7, NOW - 100);
    let mut balance = HolderBalance::new(NOW - 100);

    let b = buy(&p, &s, &mut market, &mut balance, 10, 10_750_000, false, CAP, NOW, DEADLINE)
        .unwrap();
    assert_eq!(b.base_price, 10_000_000);
    assert_eq!(b.creator_fee, 500_000);
    assert_eq!(b.protocol_fee, 250_000);
    assert_eq!(b.referrer_fee, 0);
    assert_eq!(b.net_amount, 10_750_000);
    assert_eq!(market.total_supply, 10);
    assert_eq!(market.total_volume, 10_000_000);
    assert_eq!(market.last_trade_at, NOW);
    assert_eq!(balance.amount, 10);

    let b2 = sell(&p, &s, &mut market, &mut balance, 10, 0, false, CAP, NOW + 1, DEADLINE)
        .unwrap();
    // Symmetry: the sale's base price reproduces the buy's bit for bit.
    assert_eq!(b2.base_price, 10_000_000);
    assert_eq!(b2.net_amount, 9_250_000);
    assert_eq!(market.total_supply, 0);
    // A zeroed balance signals the caller to drop the record.
    assert_eq!(balance.amount, 0);
    assert_eq!(market.total_volume, 20_000_000);
}

#[test]
fn scenario_slippage_one_unit_below_total() {
    // max_payment one unit below the computed total fails SlippageExceeded
    // and leaves supply and balance unchanged.
    let p = default_params();
    let s = default_schedule();
    let mut market = Market::new(7, NOW);
    let mut balance = HolderBalance::new(NOW);
    let before_market = market;
    let before_balance = balance;

    let r = buy(&p, &s, &mut market, &mut balance, 10, 10_750_000 - 1, false, CAP, NOW, DEADLINE);
    assert_eq!(r, Err(TradeError::SlippageExceeded));
    assert_eq!(market, before_market);
    assert_eq!(balance, before_balance);

    let r2 = plan_buy(&p, &s, &market, 10, 10_749_999, false, CAP, NOW, DEADLINE);
    assert_eq!(r2, Err(TradeError::SlippageExceeded));
}

#[test]
fn test_plan_buy_error_order() {
    let p = default_params();
    let s = default_schedule();
    let market = Market::new(7, NOW);
    assert_eq!(
        plan_buy(&p, &s, &market, 0, 1, false, CAP, NOW, DEADLINE),
        Err(TradeError::InvalidAmount)
    );
    assert_eq!(
        plan_buy(&p, &s, &market, CAP + 1, u64::MAX, false, CAP, NOW, DEADLINE),
        Err(TradeError::ExceedsMaxPurchase)
    );
    assert_eq!(
        plan_buy(&p, &s, &market, 1, u64::MAX, false, CAP, DEADLINE + 1, DEADLINE),
        Err(TradeError::TradeDeadlineExceeded)
    );
}

#[test]
fn test_plan_sell_error_order() {
    let p = default_params();
    let s = default_schedule();
    let mut market = Market::new(7, NOW);
    market.total_supply = 5;
    let mut balance = HolderBalance::new(NOW);
    balance.amount = 10;
    assert_eq!(
        plan_sell(&p, &s, &market, &balance, 0, 0, false, CAP, NOW, DEADLINE),
        Err(TradeError::InvalidAmount)
    );
    assert_eq!(
        plan_sell(&p, &s, &market, &balance, 11, 0, false, CAP, NOW, DEADLINE),
        Err(TradeError::InsufficientKeys)
    );
    // Holding covers the amount, the market's outstanding supply does not.
    assert_eq!(
        plan_sell(&p, &s, &market, &balance, 8, 0, false, CAP, NOW, DEADLINE),
        Err(TradeError::InsufficientSupply)
    );
    // Proceeds below the seller's floor.
    assert_eq!(
        plan_sell(&p, &s, &market, &balance, 5, u64::MAX, false, CAP, NOW, DEADLINE),
        Err(TradeError::SlippageExceeded)
    );
}

#[test]
fn test_buy_past_max_supply() {
    let p = CurveParameters::new(1_000_000, 16_000, 1_000_000_000, 100).unwrap();
    let s = default_schedule();
    let mut market = Market::new(7, NOW);
    market.total_supply = 95;
    let mut balance = HolderBalance::new(NOW);
    let r = buy(&p, &s, &mut market, &mut balance, 6, u64::MAX, false, CAP, NOW, DEADLINE);
    assert_eq!(r, Err(TradeError::ExceedsMaxSupply));
    assert_eq!(market.total_supply, 95);
}

#[test]
fn test_apply_buy_overflow_leaves_state() {
    let mut market = Market::new(7, NOW);
    market.total_volume = u64::MAX;
    let mut balance = HolderBalance::new(NOW);
    let before_market = market;
    let before_balance = balance;
    assert_eq!(
        apply_buy(&mut market, &mut balance, 1, 1, NOW),
        Err(TradeError::Overflow)
    );
    assert_eq!(market, before_market);
    assert_eq!(balance, before_balance);
}

#[test]
fn test_apply_sell_never_wraps() {
    let mut market = Market::new(7, NOW);
    market.total_supply = 3;
    let mut balance = HolderBalance::new(NOW);
    balance.amount = 2;
    let before_market = market;
    let before_balance = balance;
    assert_eq!(
        apply_sell(&mut market, &mut balance, 3, 0, NOW),
        Err(TradeError::InsufficientKeys)
    );
    assert_eq!(market, before_market);
    assert_eq!(balance, before_balance);

    balance.amount = 5;
    assert_eq!(
        apply_sell(&mut market, &mut balance, 4, 0, NOW),
        Err(TradeError::InsufficientSupply)
    );
    assert_eq!(market.total_supply, 3);
    assert_eq!(balance.amount, 5);

    assert!(apply_sell(&mut market, &mut balance, 3, 10, NOW).is_ok());
    assert_eq!(market.total_supply, 0);
    assert_eq!(balance.amount, 2);
    assert_eq!(market.total_volume, 10);
}

#[test]
fn test_after_fee_quotes() {
    let p = default_params();
    let s = default_schedule();
    assert_eq!(
        get_buy_price_after_fee(&p, &s, 0, 10, false).unwrap(),
        10_750_000
    );
    assert_eq!(
        get_sell_price_after_fee(&p, &s, 10, 10, false).unwrap(),
        9_250_000
    );
}

#[test]
fn test_max_buy_amount_exact_boundary() {
    let p = default_params();
    let s = default_schedule();
    assert_eq!(
        calculate_max_buy_amount(&p, &s, 0, 10_750_000, false).unwrap(),
        10
    );
    assert_eq!(
        calculate_max_buy_amount(&p, &s, 0, 10_749_999, false).unwrap(),
        9
    );
}

#[test]
fn test_max_buy_amount_errors() {
    let p = default_params();
    let s = default_schedule();
    assert_eq!(
        calculate_max_buy_amount(&p, &s, 0, 0, false),
        Err(TradeError::InvalidAmount)
    );
    let small = CurveParameters::new(1_000_000, 16_000, 1_000_000_000, 100).unwrap();
    assert_eq!(
        calculate_max_buy_amount(&small, &s, 100, 1, false),
        Err(TradeError::InvalidSupply)
    );
}

#[test]
fn test_global_state_aggregates() {
    let mut g = KeysGlobalState::initialize(42);
    assert_eq!(g.authority, 42);
    assert_eq!(g.protocol_fee_rate, 250);
    assert_eq!(g.creator_fee_rate, 500);
    assert_eq!(g.max_keys_per_purchase, 10);
    g.increment_user_count().unwrap();
    g.add_volume(10_000_000).unwrap();
    g.add_fees(750_000).unwrap();
    assert_eq!(g.total_users, 1);
    assert_eq!(g.total_volume, 10_000_000);
    assert_eq!(g.total_fees_collected, 750_000);

    g.total_volume = u64::MAX;
    let before = g;
    assert_eq!(g.add_volume(1), Err(TradeError::Overflow));
    assert_eq!(g, before);
}

#[test]
fn test_batch_price_overflow() {
    let p = CurveParameters::new(1, u64::MAX, 1, u64::MAX).unwrap();
    assert_eq!(
        p.batch_price(u64::MAX - 10, 10),
        Err(TradeError::Overflow)
    );
}

#[test]
fn test_buy_volume_overflow_leaves_state() {
    // The plan succeeds, the ledger commit cannot fit the volume counter,
    // and the whole trade rolls up to a clean Overflow with no effect.
    let p = default_params();
    let s = default_schedule();
    let mut market = Market::new(7, NOW);
    market.total_volume = u64::MAX;
    let mut balance = HolderBalance::new(NOW);
    let before_market = market;
    let r = buy(&p, &s, &mut market, &mut balance, 10, u64::MAX, false, CAP, NOW, DEADLINE);
    assert_eq!(r, Err(TradeError::Overflow));
    assert_eq!(market, before_market);
    assert_eq!(balance.amount, 0);
}

#[test]
fn test_buy_with_referrer_pays_referrer() {
    let p = default_params();
    let s = FeeSchedule::new(500, 250, 100).unwrap();
    let mut market = Market::new(7, NOW);
    let mut balance = HolderBalance::new(NOW);
    let b = buy(&p, &s, &mut market, &mut balance, 10, u64::MAX, true, CAP, NOW, DEADLINE)
        .unwrap();
    assert_eq!(b.referrer_fee, 100_000);
    assert_eq!(b.net_amount, 10_850_000);

    // Without a referrer the share stays with the counterparty rather
    // than being redistributed.
    let mut market2 = Market::new(8, NOW);
    let mut balance2 = HolderBalance::new(NOW);
    let b2 = buy(&p, &s, &mut market2, &mut balance2, 10, u64::MAX, false, CAP, NOW, DEADLINE)
        .unwrap();
    assert_eq!(b2.referrer_fee, 0);
    assert_eq!(b2.net_amount, 10_750_000);
}

#[test]
fn test_trade_event_record() {
    let p = default_params();
    let s = default_schedule();
    let mut market = Market::new(7, NOW);
    let mut balance = HolderBalance::new(NOW);
    let b = buy(&p, &s, &mut market, &mut balance, 10, u64::MAX, false, CAP, NOW, DEADLINE)
        .unwrap();
    let e = solsocial::trade::make_trade_event(&market, 42, 10, &b, NOW);
    assert_eq!(e.subject_id, 7);
    assert_eq!(e.actor_id, 42);
    assert_eq!(e.amount, 10);
    assert_eq!(e.breakdown, b);
    assert_eq!(e.new_supply, 10);
    assert_eq!(e.timestamp, NOW);
}
