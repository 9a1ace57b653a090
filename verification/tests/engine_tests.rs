use liquidator::{
    evaluation_eligibility, partition_batches, select_for_evaluation, EvaluationOutcome,
    LiquidationConfig, LiquidationEngine, LiquidationError, LiquidationResult, MonitoredPosition,
    OracleConfig, Position, PositionRegistry, PositionStatus, RawObservation, SkipReason,
    SymbolObservation,
};

fn btc_position(address: u64, margin: u64) -> Position {
    Position::new(address, 2, "BTC/USD", 1_000_000, 60_000_000_000, margin, true)
}

fn fresh_btc_observation(now: i64) -> SymbolObservation {
    SymbolObservation {
        symbol: "BTC/USD".to_string(),
        observation: Some(RawObservation {
            price: 6_000_000_000_000,
            confidence: 30_000_000_000,
            expo: -8,
            publish_time: now - 1,
        }),
    }
}

#[test]
fn test_config_default() {
    let config = LiquidationConfig::default();
    assert_eq!(config.check_interval_ms, 1000);
    assert_eq!(config.maintenance_margin_ppm, 50_000);
}

#[test]
fn test_config_validation() {
    assert!(LiquidationConfig::default().validate().is_ok());

    let mut config = LiquidationConfig::default();
    config.max_liquidation_percent = 0;
    assert!(matches!(config.validate(), Err(LiquidationError::ConfigError(_))));

    let mut config = LiquidationConfig::default();
    config.max_liquidation_percent = 101;
    assert!(matches!(config.validate(), Err(LiquidationError::ConfigError(_))));

    let mut config = LiquidationConfig::default();
    config.max_concurrent_liquidations = 0;
    assert!(matches!(config.validate(), Err(LiquidationError::ConfigError(_))));

    let mut config = LiquidationConfig::default();
    config.max_batch_size = 0;
    assert!(matches!(config.validate(), Err(LiquidationError::ConfigError(_))));

    let mut config = LiquidationConfig::default();
    config.maintenance_margin_ppm = 1_000_001;
    assert!(matches!(config.validate(), Err(LiquidationError::ConfigError(_))));
}

#[test]
fn test_registry_add_remove_get() {
    let mut registry = PositionRegistry::new();
    assert_eq!(registry.len(), 0);

    registry.add(btc_position(1, 6_000_000_000));
    registry.add(btc_position(2, 1_000_000_000));
    assert_eq!(registry.len(), 2);

    // Adding under an existing address replaces the tracked state.
    registry.add(btc_position(1, 7_000_000_000));
    assert_eq!(registry.len(), 2);
    let entry = registry.get(1).unwrap();
    assert_eq!(entry.position.margin, 7_000_000_000);
    assert_eq!(entry.status, PositionStatus::Active);

    registry.remove(1);
    assert_eq!(registry.len(), 1);
    assert!(registry.get(1).is_none());

    // Removing an untracked address changes nothing.
    registry.remove(42);
    assert_eq!(registry.len(), 1);

    let snapshot = registry.snapshot();
    assert_eq!(snapshot.len(), 1);
    assert_eq!(snapshot[0].position.address, 2);
}

#[test]
fn test_at_most_one_liquidation_in_flight() {
    // Two overlapping dispatches of one position: the first claim moves
    // the position to Liquidating, every further claim fails until the
    // attempt resolves.
    let mut registry = PositionRegistry::new();
    registry.add(btc_position(1, 200_000_000));

    assert!(registry.try_begin_liquidation(1));
    assert_eq!(registry.get(1).unwrap().status, PositionStatus::Liquidating);
    assert!(!registry.try_begin_liquidation(1));
    assert!(!registry.try_begin_liquidation(1));

    // A partial liquidation resolves back to Active; a claim works again.
    assert!(registry.set_status(1, PositionStatus::Active));
    assert!(registry.try_begin_liquidation(1));

    // A full liquidation is terminal.
    assert!(registry.set_status(1, PositionStatus::Liquidated));
    assert!(!registry.try_begin_liquidation(1));

    // An untracked position cannot be claimed.
    assert!(!registry.try_begin_liquidation(77));
}

#[test]
fn test_status_machine_rejects_invalid_steps() {
    let mut registry = PositionRegistry::new();
    registry.add(btc_position(1, 200_000_000));

    // Active cannot jump straight to Liquidating or Liquidated.
    assert!(!registry.set_status(1, PositionStatus::Liquidating));
    assert!(!registry.set_status(1, PositionStatus::Liquidated));

    assert!(registry.set_status(1, PositionStatus::AtRisk));
    assert!(registry.set_status(1, PositionStatus::Liquidating));
    assert!(registry.set_status(1, PositionStatus::Liquidated));

    // Liquidated is terminal.
    assert!(!registry.set_status(1, PositionStatus::Active));
}

#[test]
fn test_cooldown_blocks_redispatch() {
    // After a success at time T, the position is not dispatched again
    // before T + liquidation_cooldown; one position's cooldown never
    // touches another position.
    let config = LiquidationConfig::default();
    let t: i64 = 1_700_000_000;

    let mut registry = PositionRegistry::new();
    registry.add(btc_position(1, 200_000_000));
    registry.add(btc_position(2, 200_000_000));
    registry.record_cooldown(1, t);

    let cooled = registry.get(1).unwrap();
    let free = registry.get(2).unwrap();

    assert_eq!(
        evaluation_eligibility(&cooled, t + 299, &config),
        Some(SkipReason::CooldownActive)
    );
    assert_eq!(evaluation_eligibility(&free, t + 299, &config), None);

    // Once the cooldown has elapsed the position is evaluated again.
    assert_eq!(evaluation_eligibility(&cooled, t + 300, &config), None);
}

#[test]
fn test_symbol_and_size_filters() {
    let config = LiquidationConfig::default();
    let now: i64 = 1_700_000_000;

    let doge = MonitoredPosition {
        position: Position::new(3, 2, "DOGE/USD", 1_000_000, 1_000_000, 1_000_000, true),
        status: PositionStatus::Active,
    };
    assert_eq!(
        evaluation_eligibility(&doge, now, &config),
        Some(SkipReason::SymbolNotWhitelisted)
    );

    let mut deny_eth = LiquidationConfig::default();
    deny_eth.whitelisted_symbols = Vec::new();
    deny_eth.blacklisted_symbols = vec!["ETH/USD".to_string()];
    let eth = MonitoredPosition {
        position: Position::new(4, 2, "ETH/USD", 1_000_000, 3_000_000_000, 1_000_000, true),
        status: PositionStatus::Active,
    };
    assert_eq!(
        evaluation_eligibility(&eth, now, &deny_eth),
        Some(SkipReason::SymbolBlacklisted)
    );

    let dust = MonitoredPosition {
        position: Position::new(5, 2, "BTC/USD", 999, 60_000_000_000, 1_000, true),
        status: PositionStatus::Active,
    };
    assert_eq!(evaluation_eligibility(&dust, now, &config), Some(SkipReason::BelowMinimumSize));

    let whale = MonitoredPosition {
        position: Position::new(6, 2, "BTC/USD", 1_000_000_001, 60_000_000_000, 1_000, true),
        status: PositionStatus::Active,
    };
    assert_eq!(evaluation_eligibility(&whale, now, &config), Some(SkipReason::AboveMaximumSize));
}

#[test]
fn test_select_and_batch() {
    let config = LiquidationConfig::default();
    let now: i64 = 1_700_000_000;

    let mut snapshot: Vec<MonitoredPosition> = Vec::new();
    for k in 0..5u64 {
        snapshot.push(MonitoredPosition {
            position: btc_position(k, 200_000_000),
            status: PositionStatus::Active,
        });
    }
    // One entry is in flight and one is cooling down: both are left out.
    snapshot[1].status = PositionStatus::Liquidating;
    snapshot[3].position.last_liquidated = Some(now - 10);

    let selected = select_for_evaluation(&snapshot, now, &config);
    let addresses: Vec<u64> = selected.iter().map(|p| p.address).collect();
    assert_eq!(addresses, vec![0, 2, 4]);

    let batches = partition_batches(&selected, 2);
    assert_eq!(batches.len(), 2);
    assert_eq!(batches[0].len(), 2);
    assert_eq!(batches[1].len(), 1);
    assert_eq!(batches[0][0].address, 0);
    assert_eq!(batches[0][1].address, 2);
    assert_eq!(batches[1][0].address, 4);

    let empty: Vec<Position> = Vec::new();
    assert_eq!(partition_batches(&empty, 2).len(), 0);
}

#[test]
fn test_stale_price_skips_without_execution() {
    // The oracle reports an age one second over the bound: the guard
    // returns the stale-price rejection, the tick records a skip for it,
    // and nothing is dispatched to the executor.
    let now: i64 = 1_700_000_000;
    let mut engine = LiquidationEngine::new(LiquidationConfig::default(), OracleConfig::default());
    engine.add_position(btc_position(1, 200_000_000));

    let mut feed = vec![fresh_btc_observation(now)];
    match &mut feed[0].observation {
        Some(obs) => obs.publish_time = now - 31,
        None => unreachable!(),
    }

    let outcomes = engine.check_positions(&feed, now);
    assert_eq!(outcomes.len(), 1);
    match &outcomes[0] {
        EvaluationOutcome::Report(LiquidationResult::Skipped { position, reason }) => {
            assert_eq!(*position, 1);
            assert_eq!(
                *reason,
                SkipReason::PriceRejected(LiquidationError::StalePrice("BTC/USD".to_string()))
            );
        }
        _ => panic!("a stale price must never reach the executor"),
    }
}

#[test]
fn test_dry_run_tick_reports_skip() {
    let now: i64 = 1_700_000_000;
    let mut engine = LiquidationEngine::new(LiquidationConfig::default(), OracleConfig::default());
    engine.add_position(btc_position(1, 200_000_000));

    let feed = vec![fresh_btc_observation(now)];
    let outcomes = engine.check_positions(&feed, now);
    assert_eq!(outcomes.len(), 1);
    match &outcomes[0] {
        EvaluationOutcome::Report(LiquidationResult::Skipped { position, reason }) => {
            assert_eq!(*position, 1);
            assert_eq!(*reason, SkipReason::DryRun);
        }
        _ => panic!("dry run must not dispatch"),
    }
}

#[test]
fn test_live_tick_dispatches_request() {
    let now: i64 = 1_700_000_000;
    let mut config = LiquidationConfig::default();
    config.dry_run = false;
    let mut engine = LiquidationEngine::new(config, OracleConfig::default());
    engine.add_position(btc_position(1, 200_000_000));
    engine.add_position(btc_position(2, 30_000_000_000));

    let feed = vec![fresh_btc_observation(now)];
    let outcomes = engine.check_positions(&feed, now);
    assert_eq!(outcomes.len(), 2);

    // The under-collateralized position becomes a request for half its
    // size at the vetted price.
    match &outcomes[0] {
        EvaluationOutcome::Dispatch(request) => {
            assert_eq!(request.position.address, 1);
            assert_eq!(request.amount, 500_000);
            assert_eq!(request.vetted_price, 60_000_000_000);
            assert_eq!(request.max_slippage_bps, 50);
        }
        _ => panic!("an under-collateralized position must be dispatched"),
    }

    // The healthy one is reported, not dispatched.
    match &outcomes[1] {
        EvaluationOutcome::Report(LiquidationResult::Skipped { position, reason }) => {
            assert_eq!(*position, 2);
            assert_eq!(*reason, SkipReason::NotLiquidatable);
        }
        _ => panic!("a healthy position must not be dispatched"),
    }
}

#[test]
fn test_missing_observation_skips_position() {
    let now: i64 = 1_700_000_000;
    let mut config = LiquidationConfig::default();
    config.whitelisted_symbols = Vec::new();
    let mut engine = LiquidationEngine::new(config, OracleConfig::default());
    engine.add_position(Position::new(7, 2, "SOL/USD", 1_000_000, 100_000_000, 1_000_000, true));

    let feed = vec![fresh_btc_observation(now)];
    let outcomes = engine.check_positions(&feed, now);
    assert_eq!(outcomes.len(), 1);
    match &outcomes[0] {
        EvaluationOutcome::Report(LiquidationResult::Skipped { position, reason }) => {
            assert_eq!(*position, 7);
            assert_eq!(
                *reason,
                SkipReason::PriceRejected(LiquidationError::OracleError("SOL/USD".to_string()))
            );
        }
        _ => panic!("a position without an observation must be skipped"),
    }
}

#[test]
fn test_engine_accessors() {
    let engine = LiquidationEngine::new(LiquidationConfig::default(), OracleConfig::default());
    assert_eq!(engine.config().check_interval_ms, 1000);
    assert_eq!(engine.registry.len(), 0);

    let mut engine = engine;
    engine.add_position(btc_position(1, 200_000_000));
    assert_eq!(engine.registry.len(), 1);
    engine.remove_position(1);
    assert_eq!(engine.registry.len(), 0);
}
