use liquidator::{
    begin_execution, on_revalidated_price, on_submission_outcome, plan_liquidation_amount,
    ExecutorStep, LiquidationConfig, LiquidationError, LiquidationResult, Position,
    PositionRegistry, SkipReason, SubmissionOutcome,
};

// One whole BTC at 60000 with only 200 of margin: deep under water at a
// 5% maintenance margin.
fn underwater_position() -> Position {
    Position::new(9, 2, "BTC/USD", 1_000_000, 60_000_000_000, 200_000_000, true)
}

fn live_config() -> LiquidationConfig {
    let mut config = LiquidationConfig::default();
    config.dry_run = false;
    config
}

#[test]
fn test_plan_liquidation_amount() {
    let config = live_config();
    // Partial liquidations on: half of the position.
    assert_eq!(plan_liquidation_amount(1_000_000, &config), 500_000);
    assert_eq!(plan_liquidation_amount(1, &config), 0);

    let mut full = live_config();
    full.enable_partial_liquidations = false;
    assert_eq!(plan_liquidation_amount(1_000_000, &full), 1_000_000);
}

#[test]
fn test_dry_run_skips_without_submission() {
    // Under-collateralized position, valid price, dry-run on: the executor
    // reports a skip, nothing is submitted, and no cooldown is recorded.
    let position = underwater_position();
    let config = LiquidationConfig::default();
    assert!(config.dry_run);

    let mut registry = PositionRegistry::new();
    registry.add(position.clone());

    let (state, step) = begin_execution(&position, 60_000_000_000, &config);
    assert_eq!(state.attempts_made, 0);
    match step {
        ExecutorStep::Done(LiquidationResult::Skipped { position: addr, reason }) => {
            assert_eq!(addr, 9);
            assert_eq!(reason, SkipReason::DryRun);
        }
        _ => panic!("dry run must not reach submission"),
    }
    // No cooldown was recorded for the skipped position.
    let entry = registry.get(9).unwrap();
    assert_eq!(entry.position.last_liquidated, None);
}

#[test]
fn test_healthy_position_skipped_at_execution_boundary() {
    let healthy = Position::new(9, 2, "BTC/USD", 1_000_000, 60_000_000_000, 6_000_000_000, true);
    let (_, step) = begin_execution(&healthy, 60_000_000_000, &live_config());
    match step {
        ExecutorStep::Done(LiquidationResult::Skipped { reason, .. }) => {
            assert_eq!(reason, SkipReason::NotLiquidatable);
        }
        _ => panic!("a healthy position must never be submitted"),
    }
}

#[test]
fn test_third_attempt_succeeds_after_two_failures() {
    // Submission fails twice, then confirms on the third attempt with
    // max_retries = 3: the outcome is a success, not a failure, and the
    // cooldown is recorded at the success timestamp.
    let position = underwater_position();
    let config = live_config();
    assert_eq!(config.max_retries, 3);

    let mut registry = PositionRegistry::new();
    registry.add(position.clone());
    assert!(registry.try_begin_liquidation(9));

    let (mut state, step) = begin_execution(&position, 60_000_000_000, &config);
    assert!(matches!(step, ExecutorStep::Submit));

    // First attempt fails.
    let step = on_submission_outcome(
        &mut state,
        SubmissionOutcome::Rejected {
            error: LiquidationError::LiquidationFailed("node unreachable".to_string()),
        },
        &config,
    );
    assert_eq!(state.attempts_made, 1);
    assert!(matches!(step, ExecutorStep::RevalidatePrice));
    let step = on_revalidated_price(&state, &position, Ok(60_000_000_000), &config);
    assert!(matches!(step, ExecutorStep::Submit));

    // Second attempt fails.
    let step = on_submission_outcome(&mut state, SubmissionOutcome::TimedOut, &config);
    assert_eq!(state.attempts_made, 2);
    assert!(matches!(step, ExecutorStep::RevalidatePrice));
    let step = on_revalidated_price(&state, &position, Ok(60_000_000_000), &config);
    assert!(matches!(step, ExecutorStep::Submit));

    // Third attempt confirms.
    let step = on_submission_outcome(
        &mut state,
        SubmissionOutcome::Confirmed { signature: "tx_ref_1".to_string() },
        &config,
    );
    assert_eq!(state.attempts_made, 3);
    match step {
        ExecutorStep::Done(LiquidationResult::Success { position: addr, amount, signature }) => {
            assert_eq!(addr, 9);
            assert_eq!(amount, 500_000);
            assert_eq!(signature, "tx_ref_1");
        }
        _ => panic!("the confirmed attempt must end in success"),
    }

    // The driver records the cooldown at the success timestamp.
    let success_time: i64 = 1_700_000_123;
    registry.record_cooldown(9, success_time);
    let entry = registry.get(9).unwrap();
    assert_eq!(entry.position.last_liquidated, Some(success_time));
}

#[test]
fn test_failure_after_exhausted_retries() {
    let position = underwater_position();
    let config = live_config();

    let (mut state, step) = begin_execution(&position, 60_000_000_000, &config);
    assert!(matches!(step, ExecutorStep::Submit));

    for _ in 0..2 {
        let step = on_submission_outcome(&mut state, SubmissionOutcome::TimedOut, &config);
        assert!(matches!(step, ExecutorStep::RevalidatePrice));
        let step = on_revalidated_price(&state, &position, Ok(60_000_000_000), &config);
        assert!(matches!(step, ExecutorStep::Submit));
    }
    let step = on_submission_outcome(&mut state, SubmissionOutcome::TimedOut, &config);
    match step {
        ExecutorStep::Done(LiquidationResult::Failure { position: addr, error, attempts }) => {
            assert_eq!(addr, 9);
            assert_eq!(error, LiquidationError::ConfirmationTimeout);
            assert_eq!(attempts, 3);
        }
        _ => panic!("exhausted retries must end in failure"),
    }
}

#[test]
fn test_retry_aborts_when_no_longer_liquidatable() {
    let position = underwater_position();
    let config = live_config();

    let (mut state, _) = begin_execution(&position, 60_000_000_000, &config);
    let step = on_submission_outcome(&mut state, SubmissionOutcome::TimedOut, &config);
    assert!(matches!(step, ExecutorStep::RevalidatePrice));

    // The price moved in the position's favor: at 63000 the margin ratio
    // is back above the 5% maintenance margin, so the remaining attempts
    // are abandoned.
    let step = on_revalidated_price(&state, &position, Ok(63_000_000_000), &config);
    match step {
        ExecutorStep::Done(LiquidationResult::Skipped { reason, .. }) => {
            assert_eq!(reason, SkipReason::NotLiquidatable);
        }
        _ => panic!("a no-longer-liquidatable position must be skipped"),
    }

    // A guard rejection between attempts also abandons the execution.
    let stale = LiquidationError::StalePrice("BTC/USD".to_string());
    let step = on_revalidated_price(&state, &position, Err(stale.clone()), &config);
    match step {
        ExecutorStep::Done(LiquidationResult::Skipped { reason, .. }) => {
            assert_eq!(reason, SkipReason::PriceRejected(stale));
        }
        _ => panic!("a rejected price must skip the rest of the attempts"),
    }
}
