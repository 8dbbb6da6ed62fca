use dex_core::perpetual_trading::{
    calculate_funding_payment, calculate_pnl, calculate_price_impact, close_position, initialize,
    liquidate_position, open_position, update_funding_rate, ErrorCode, PerpetualMarket,
};

const ORACLE_PRICE: u64 = 5000;

fn test_market() -> PerpetualMarket {
    // Initial margin 5%, maintenance margin 2.5%, liquidation fee 1%.
    initialize(500, 250, 100, 21, 22, 23, 24, 25, 8)
}

fn assert_aggregates(m: &PerpetualMarket) {
    assert_eq!(
        m.open_interest,
        m.total_long_positions + m.total_short_positions
    );
}

#[test]
fn initialize_starts_flat() {
    let m = test_market();
    assert_eq!(m.initial_margin_ratio, 500);
    assert_eq!(m.maintenance_margin_ratio, 250);
    assert_eq!(m.liquidation_fee, 100);
    assert_eq!(m.total_long_positions, 0);
    assert_eq!(m.total_short_positions, 0);
    assert_eq!(m.open_interest, 0);
    assert_eq!(m.funding_rate, 0);
    assert_eq!(m.funding_index, 0);
    assert_aggregates(&m);
}

#[test]
fn open_position_rejects_leverage_out_of_range() {
    let mut m = test_market();
    assert_eq!(
        open_position(&mut m, 9, ORACLE_PRICE, 10, 2000, 0, 10000, 0),
        Err(ErrorCode::InvalidLeverage)
    );
    assert_eq!(
        open_position(&mut m, 9, ORACLE_PRICE, 10, 2000, 21, 10000, 0),
        Err(ErrorCode::InvalidLeverage)
    );
    assert_eq!(m, test_market());
}

#[test]
fn open_position_accepts_leverage_bounds() {
    let mut m = test_market();
    assert!(open_position(&mut m, 9, ORACLE_PRICE, 10, 2500, 1, 10000, 0).is_ok());
    assert!(open_position(&mut m, 9, ORACLE_PRICE, 10, 2500, 20, 10000, 0).is_ok());
    assert_aggregates(&m);
}

#[test]
fn open_position_rejects_zero_size_and_collateral() {
    let mut m = test_market();
    assert_eq!(
        open_position(&mut m, 9, ORACLE_PRICE, 0, 2000, 10, 10000, 0),
        Err(ErrorCode::InvalidSize)
    );
    assert_eq!(
        open_position(&mut m, 9, ORACLE_PRICE, 10, 0, 10, 10000, 0),
        Err(ErrorCode::InvalidCollateral)
    );
    assert_eq!(m, test_market());
}

#[test]
fn open_position_margin_boundary() {
    // notional = 10 * 5000 = 50000; required margin = 50000 * 500 / 10000
    // = 2500; leverage 2 relaxes the requirement to 1250.
    let mut m = test_market();
    assert_eq!(
        open_position(&mut m, 9, ORACLE_PRICE, 10, 1249, 2, 10000, 0),
        Err(ErrorCode::InsufficientCollateral)
    );
    assert!(open_position(&mut m, 9, ORACLE_PRICE, 10, 1250, 2, 10000, 0).is_ok());
}

#[test]
fn open_position_price_impact_bound() {
    let mut m = test_market();
    assert!(open_position(&mut m, 9, ORACLE_PRICE, 1000, 5000000, 1, 10000, 0).is_ok());
    // impact of the next position: 50 * 10000 / 1000 = 500 bps.
    assert_eq!(
        open_position(&mut m, 9, ORACLE_PRICE, 50, 5000000, 1, 499, 0),
        Err(ErrorCode::PriceImpactTooHigh)
    );
    assert!(open_position(&mut m, 9, ORACLE_PRICE, 50, 5000000, 1, 500, 0).is_ok());
    // A huge position's impact is capped at 1000 bps.
    assert!(open_position(&mut m, 9, ORACLE_PRICE, 100000, u64::MAX, 1, 1000, 0).is_ok());
    assert_aggregates(&m);
}

#[test]
fn open_position_notional_overflow() {
    let mut m = test_market();
    assert_eq!(
        open_position(&mut m, 9, u64::MAX, i64::MAX, 2000, 10, 10000, 0),
        Err(ErrorCode::ArithmeticOverflow)
    );
    assert_eq!(m, test_market());
}

#[test]
fn open_position_records_entry_state() {
    let mut m = test_market();
    m.funding_index = 77;
    let p = open_position(&mut m, 9, ORACLE_PRICE, -10, 2000, 5, 10000, 42).unwrap();
    assert_eq!(p.owner, 9);
    assert_eq!(p.size, -10);
    assert_eq!(p.entry_price, ORACLE_PRICE);
    assert_eq!(p.collateral, 2000);
    assert_eq!(p.leverage, 5);
    assert_eq!(p.last_funding_index, 77);
    assert_eq!(p.created_at, 42);
    assert_eq!(m.total_short_positions, 10);
    assert_eq!(m.open_interest, 10);
    assert_aggregates(&m);
}

#[test]
fn calculate_pnl_exact() {
    assert_eq!(calculate_pnl(10, 5000, 5100), Ok((1000, true)));
    assert_eq!(calculate_pnl(10, 5100, 5000), Ok((1000, false)));
    assert_eq!(calculate_pnl(-10, 5100, 5000), Ok((1000, true)));
    assert_eq!(calculate_pnl(-10, 5000, 5100), Ok((1000, false)));
    assert_eq!(calculate_pnl(10, 5000, 5000), Ok((0, true)));
}

#[test]
fn calculate_pnl_overflow() {
    assert_eq!(
        calculate_pnl(i64::MIN, 0, u64::MAX),
        Err(ErrorCode::ArithmeticOverflow)
    );
}

#[test]
fn calculate_funding_payment_exact() {
    assert_eq!(calculate_funding_payment(10, 100, 50), (50, true));
    assert_eq!(calculate_funding_payment(10, 50, 100), (50, false));
    assert_eq!(calculate_funding_payment(-10, 50, 100), (50, true));
    assert_eq!(calculate_funding_payment(-10, 100, 50), (50, false));
    assert_eq!(calculate_funding_payment(10, 60, 60), (0, false));
}

#[test]
fn calculate_price_impact_exact() {
    assert_eq!(calculate_price_impact(50, 1000), 500);
    assert_eq!(calculate_price_impact(-50, 1000), 500);
    assert_eq!(calculate_price_impact(5000, 1000), 1000);
    // An empty market divides by one: any nonzero size takes the full cap.
    assert_eq!(calculate_price_impact(50, 0), 1000);
    assert_eq!(calculate_price_impact(0, 0), 0);
}

#[test]
fn open_position_on_empty_market_takes_full_impact() {
    let mut m = test_market();
    assert_eq!(
        open_position(&mut m, 9, ORACLE_PRICE, 10, 2500, 1, 999, 0),
        Err(ErrorCode::PriceImpactTooHigh)
    );
    assert_eq!(m, test_market());
    assert!(open_position(&mut m, 9, ORACLE_PRICE, 10, 2500, 1, 1000, 0).is_ok());
    assert_aggregates(&m);
}

#[test]
fn close_position_pays_profit() {
    let mut m = test_market();
    let p = open_position(&mut m, 9, ORACLE_PRICE, 10, 2000, 10, 10000, 0).unwrap();
    // pnl = 100 * 10 = 1000 in the long's favour.
    assert_eq!(close_position(&mut m, &p, 5100, 0), Ok(3000));
    assert_eq!(m.total_long_positions, 0);
    assert_eq!(m.open_interest, 0);
    assert_aggregates(&m);
}

#[test]
fn close_position_deducts_affordable_loss() {
    let mut m = test_market();
    let p = open_position(&mut m, 9, ORACLE_PRICE, 10, 2000, 10, 10000, 0).unwrap();
    assert_eq!(close_position(&mut m, &p, 4900, 0), Ok(1000));
}

#[test]
fn close_position_clamps_ruinous_loss_to_zero() {
    let mut m = test_market();
    let p = open_position(&mut m, 9, ORACLE_PRICE, 10, 2000, 10, 10000, 0).unwrap();
    // pnl = 300 * 10 = 3000 against 2000 collateral: all of it is lost.
    assert_eq!(close_position(&mut m, &p, 4700, 0), Ok(0));
    assert_aggregates(&m);
}

#[test]
fn close_position_receives_funding() {
    let mut m = test_market();
    m.funding_index = 100;
    let p = open_position(&mut m, 9, ORACLE_PRICE, 10, 2000, 10, 10000, 0).unwrap();
    // The index fell after entry, so the long receives the difference.
    m.funding_index = 40;
    assert_eq!(close_position(&mut m, &p, ORACLE_PRICE, 0), Ok(2060));
}

#[test]
fn close_position_skips_unaffordable_funding() {
    let mut m = test_market();
    let p = open_position(&mut m, 9, ORACLE_PRICE, 10, 2000, 10, 10000, 0).unwrap();
    // The loss clamps the settlement to zero; the funding owed on top is
    // unaffordable and deliberately skipped rather than zeroing further.
    m.funding_index = 50;
    assert_eq!(close_position(&mut m, &p, 4700, 0), Ok(0));
}

#[test]
fn close_position_enforces_slippage() {
    let mut m = test_market();
    let p = open_position(&mut m, 9, ORACLE_PRICE, 10, 2000, 10, 10000, 0).unwrap();
    let before = m;
    assert_eq!(
        close_position(&mut m, &p, 5100, 3001),
        Err(ErrorCode::SlippageExceeded)
    );
    assert_eq!(m, before);
    assert_eq!(close_position(&mut m, &p, 5100, 3000), Ok(3000));
}

#[test]
fn close_position_settlement_overflow() {
    let mut m = test_market();
    let p = open_position(&mut m, 9, ORACLE_PRICE, 1, u64::MAX, 20, 10000, 0).unwrap();
    let before = m;
    assert_eq!(
        close_position(&mut m, &p, 5001, 0),
        Err(ErrorCode::ArithmeticOverflow)
    );
    assert_eq!(m, before);
}

#[test]
fn liquidate_healthy_position_refused() {
    let mut m = test_market();
    let p = open_position(&mut m, 9, ORACLE_PRICE, 10, 2000, 10, 10000, 0).unwrap();
    let before = m;
    // remaining = 2000, notional = 50000: margin ratio 400 bps >= 250.
    assert_eq!(
        liquidate_position(&mut m, &p, ORACLE_PRICE),
        Err(ErrorCode::CannotLiquidate)
    );
    assert_eq!(m, before);
}

#[test]
fn liquidate_eligible_position_pays_fee() {
    let mut m = test_market();
    let p = open_position(&mut m, 9, ORACLE_PRICE, 10, 2000, 10, 10000, 0).unwrap();
    // The price moved up, which favours this long, yet the engine deducts
    // the PnL magnitude regardless of direction: remaining = 2000 - 1000,
    // notional = 51000, margin ratio = 196 bps < 250, fee = 510.
    assert_eq!(liquidate_position(&mut m, &p, 5100), Ok(510));
    assert_eq!(m.total_long_positions, 0);
    assert_eq!(m.open_interest, 0);
    assert_aggregates(&m);
}

#[test]
fn liquidate_with_unpayable_fee_refused() {
    let mut m = test_market();
    let p = open_position(&mut m, 9, ORACLE_PRICE, 10, 1100, 10, 10000, 0).unwrap();
    // remaining = 1100 - 1000 = 100 < fee 510, though ratio 19 bps < 250.
    assert_eq!(
        liquidate_position(&mut m, &p, 5100),
        Err(ErrorCode::InsufficientCollateralForLiquidation)
    );
}

#[test]
fn liquidate_at_zero_price_refused() {
    let mut m = test_market();
    let p = open_position(&mut m, 9, ORACLE_PRICE, 10, 2000, 10, 10000, 0).unwrap();
    assert_eq!(
        liquidate_position(&mut m, &p, 0),
        Err(ErrorCode::DivisionByZero)
    );
}

#[test]
fn aggregates_hold_across_position_lifecycles() {
    let mut m = test_market();
    let long = open_position(&mut m, 9, ORACLE_PRICE, 10, 2000, 10, 10000, 0).unwrap();
    assert_aggregates(&m);
    let short = open_position(&mut m, 8, ORACLE_PRICE, -20, 10000, 10, 10000, 0).unwrap();
    assert_aggregates(&m);
    assert_eq!(m.open_interest, 30);
    assert_eq!(close_position(&mut m, &long, ORACLE_PRICE, 0), Ok(2000));
    assert_aggregates(&m);
    assert_eq!(m.open_interest, 20);
    // Short loses as the price rises: remaining = 10000 - 8000 = 2000,
    // notional = 108000, ratio = 185 bps < 250, fee = 1080.
    assert_eq!(liquidate_position(&mut m, &short, 5400), Ok(1080));
    assert_aggregates(&m);
    assert_eq!(m.open_interest, 0);
    assert_eq!(m.total_short_positions, 0);
}

#[test]
fn funding_rate_long_heavy_market() {
    let mut m = test_market();
    m.total_long_positions = 1000;
    m.total_short_positions = 400;
    m.open_interest = 1400;
    update_funding_rate(&mut m, 7);
    // imbalance_rate = 600 * 10000 / 1000 = 6000; magnitude = 5 + 60 = 65.
    assert_eq!(m.funding_rate, 65);
    assert_eq!(m.funding_index, 65);
    assert_eq!(m.last_funding_time, 7);
}

#[test]
fn funding_index_accumulates_magnitude_whatever_the_sign() {
    let mut m = test_market();
    m.total_long_positions = 400;
    m.total_short_positions = 1000;
    m.open_interest = 1400;
    m.funding_index = 10;
    update_funding_rate(&mut m, 7);
    // Shorts outweigh longs: the rate flips sign, the index still grows.
    assert_eq!(m.funding_rate, -65);
    assert_eq!(m.funding_index, 75);
}

#[test]
fn funding_rate_idle_market_unchanged() {
    let mut m = test_market();
    let before = m;
    update_funding_rate(&mut m, 7);
    assert_eq!(m, before);
    assert_eq!(m.last_funding_time, 0);
}

#[test]
fn funding_rate_idle_market_needs_no_index_headroom() {
    let mut m = test_market();
    m.funding_index = u64::MAX;
    let before = m;
    update_funding_rate(&mut m, 7);
    assert_eq!(m, before);
    assert_eq!(m.funding_index, u64::MAX);
}

#[test]
fn funding_rate_balanced_market_base_rate() {
    let mut m = test_market();
    m.total_long_positions = 500;
    m.total_short_positions = 500;
    m.open_interest = 1000;
    update_funding_rate(&mut m, 9);
    assert_eq!(m.funding_rate, -5);
    assert_eq!(m.funding_index, 5);
    assert_eq!(m.last_funding_time, 9);
}
