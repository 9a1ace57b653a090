use liquidator::{Position, PositionStatus};

// One whole BTC at an entry of 60000 with 6000 of margin: 10x leverage.
fn create_test_position() -> Position {
    Position::new(
        1,
        2,
        "BTC/USD",
        1_000_000,          // 1.0 base unit in micro-units
        60_000_000_000,     // 60000 quote units per base unit, in micro-units
        6_000_000_000,      // 6000 quote units of margin, in micro-units
        true,
    )
}

#[test]
fn test_position_value() {
    let position = create_test_position();
    assert_eq!(position.value(60_000_000_000), 60_000_000_000);
    assert_eq!(position.value(65_000_000_000), 65_000_000_000);
}

#[test]
fn test_unrealized_pnl() {
    let position = create_test_position();

    // Price increase (long position should be profitable)
    assert_eq!(position.unrealized_pnl(65_000_000_000), 5_000_000_000);

    // Price decrease (long position should have loss)
    assert_eq!(position.unrealized_pnl(55_000_000_000), -5_000_000_000);
}

#[test]
fn test_margin_ratio() {
    let position = create_test_position();

    // At entry price: 10%, exactly 100000 parts per million
    assert_eq!(position.margin_ratio(60_000_000_000), 100_000);

    // Price increase
    assert!(position.margin_ratio(65_000_000_000) > 100_000);

    // Price decrease
    assert!(position.margin_ratio(55_000_000_000) < 100_000);
}

#[test]
fn test_leverage() {
    let position = create_test_position();

    // At entry price, leverage should be 10x
    assert_eq!(position.leverage(60_000_000_000), 10_000_000);

    // With profit, leverage decreases
    assert!(position.leverage(65_000_000_000) < 10_000_000);

    // With loss, leverage increases
    assert!(position.leverage(55_000_000_000) > 10_000_000);
}

#[test]
fn test_liquidation_price() {
    let position = create_test_position();
    let liq_price = position.liquidation_price();

    // For a 10x long position with ~0.5% maintenance, liquidation should be around 5-6% below entry
    assert!(liq_price < 60_000_000_000 * 95 / 100);
    assert!(liq_price > 60_000_000_000 * 90 / 100);
}

#[test]
fn test_is_liquidatable() {
    let position = create_test_position();

    // At entry price, should not be liquidatable
    assert!(!position.is_liquidatable(60_000_000_000));

    // At liquidation price, should be liquidatable
    let liq_price = position.liquidation_price();
    assert!(position.is_liquidatable(liq_price as u64));

    // Below liquidation price, should be liquidatable
    assert!(position.is_liquidatable((liq_price * 9 / 10) as u64));
}

#[test]
fn test_liquidation_price_exact_value() {
    // The margin ratio of the 10x long crosses its 0.5% maintenance margin
    // at 54000 / 0.995, a little above 54271.
    let position = create_test_position();
    assert_eq!(position.liquidation_price(), 54_271_356_783);
}

#[test]
fn test_maintenance_margin_scales_with_size() {
    let small = create_test_position();
    assert_eq!(small.maintenance_margin_ppm(), 5000);

    // Half the reference size adds half the size impact.
    let mid = Position::new(1, 2, "BTC/USD", 500_000_000_000, 1_000_000, 1_000_000, true);
    assert_eq!(mid.maintenance_margin_ppm(), 5500);

    // Any size at or above the reference hits the cap.
    let big = Position::new(1, 2, "BTC/USD", 1_000_000_000_000_000, 1_000_000, 1_000_000, true);
    assert_eq!(big.maintenance_margin_ppm(), 6000);
}

#[test]
fn test_healthy_position_scenario() {
    // BTC/USD, size 1.0, entry 60000, margin 6000 (10x leverage),
    // maintenance margin 0.5%: margin ratio is 10% at 60000, so the
    // position is not liquidatable there; it becomes liquidatable once the
    // price crosses the liquidation price near 54271.
    let position = create_test_position();
    assert_eq!(position.margin_ratio(60_000_000_000), 100_000);
    assert!(!position.is_liquidatable(60_000_000_000));
    assert!(!position.is_undercollateralized(60_000_000_000, 5000));
    assert!(position.is_liquidatable(54_271_356_783));
    assert!(!position.is_liquidatable(54_271_356_784 + 1_000_000));
}

#[test]
fn test_short_liquidation_price_above_entry() {
    let short = Position::new(
        1,
        2,
        "BTC/USD",
        1_000_000,
        60_000_000_000,
        6_000_000_000,
        false,
    );
    let liq_price = short.liquidation_price();
    assert!(liq_price > 60_000_000_000);
    assert!(short.is_liquidatable(liq_price as u64));
}

#[test]
fn test_zero_size_position_never_liquidatable() {
    let empty = Position::new(1, 2, "BTC/USD", 0, 60_000_000_000, 0, true);
    assert_eq!(empty.value(60_000_000_000), 0);
    assert_eq!(empty.margin_ratio(60_000_000_000), 0);
    assert!(!empty.is_liquidatable(60_000_000_000));
    assert_eq!(empty.liquidation_price(), 0);
}

#[test]
fn test_update_record() {
    let position = create_test_position();
    let update = position.update_record(PositionStatus::Active, 65_000_000_000, 1_700_000_000);
    assert_eq!(update.address, 1);
    assert_eq!(update.symbol, "BTC/USD");
    assert_eq!(update.mark_price, 65_000_000_000);
    assert_eq!(update.unrealized_pnl, 5_000_000_000);
    assert_eq!(update.maintenance_margin_ppm, 5000);
    assert_eq!(update.liquidation_price, 54_271_356_783);
    assert_eq!(update.margin_ratio_ppm, 169_230);
    assert_eq!(update.leverage_ppm, 5_909_090);
    assert_eq!(update.status, PositionStatus::Active);
    assert_eq!(update.timestamp, 1_700_000_000);
}
