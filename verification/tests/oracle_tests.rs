use liquidator::{
    scale_to_micro, vet_price, ErrorDomain, LiquidationError, OracleConfig, RawObservation,
};

// A BTC/USD observation as an oracle would publish it: mantissa 6e12 at
// exponent -8 is a price of 60000, and a confidence of 0.5% of the price.
fn fresh_observation(now: i64) -> RawObservation {
    RawObservation {
        price: 6_000_000_000_000,
        confidence: 30_000_000_000,
        expo: -8,
        publish_time: now - 1,
    }
}

fn guard() -> OracleConfig {
    OracleConfig::default()
}

#[test]
fn test_vet_accepts_fresh_price() {
    let now: i64 = 1_700_000_000;
    let vetted = vet_price("BTC/USD", &fresh_observation(now), now, &guard());
    assert_eq!(vetted, Ok(60_000_000_000));
}

#[test]
fn test_vet_rejects_stale_price() {
    // Age one second over the bound: rejected however sound the rest is.
    let now: i64 = 1_700_000_000;
    let mut obs = fresh_observation(now);
    obs.publish_time = now - 31;
    let vetted = vet_price("BTC/USD", &obs, now, &guard());
    assert_eq!(vetted, Err(LiquidationError::StalePrice("BTC/USD".to_string())));
}

#[test]
fn test_vet_accepts_age_at_bound() {
    let now: i64 = 1_700_000_000;
    let mut obs = fresh_observation(now);
    obs.publish_time = now - 30;
    assert_eq!(vet_price("BTC/USD", &obs, now, &guard()), Ok(60_000_000_000));
}

#[test]
fn test_vet_rejects_narrow_confidence() {
    // Confidence below 0.1% of the price: a frozen or manipulated feed.
    let now: i64 = 1_700_000_000;
    let mut obs = fresh_observation(now);
    obs.confidence = 1_000_000_000;
    let vetted = vet_price("BTC/USD", &obs, now, &guard());
    assert_eq!(vetted, Err(LiquidationError::LowConfidencePrice("BTC/USD".to_string())));
}

#[test]
fn test_vet_rejects_wide_confidence() {
    // Confidence above 1% of the price: too illiquid to act on.
    let now: i64 = 1_700_000_000;
    let mut obs = fresh_observation(now);
    obs.confidence = 1_000_000_000_000;
    let vetted = vet_price("BTC/USD", &obs, now, &guard());
    assert_eq!(vetted, Err(LiquidationError::HighConfidenceInterval("BTC/USD".to_string())));
}

#[test]
fn test_vet_accepts_confidence_at_band_edges() {
    let now: i64 = 1_700_000_000;

    // Exactly 0.1% of the price.
    let mut obs = fresh_observation(now);
    obs.confidence = 6_000_000_000;
    assert_eq!(vet_price("BTC/USD", &obs, now, &guard()), Ok(60_000_000_000));

    // Exactly 1% of the price.
    obs.confidence = 60_000_000_000;
    assert_eq!(vet_price("BTC/USD", &obs, now, &guard()), Ok(60_000_000_000));
}

#[test]
fn test_vet_rejects_nonpositive_price() {
    let now: i64 = 1_700_000_000;
    let mut obs = fresh_observation(now);
    obs.price = 0;
    let vetted = vet_price("BTC/USD", &obs, now, &guard());
    assert_eq!(vetted, Err(LiquidationError::OracleError("BTC/USD".to_string())));

    obs.price = -5;
    let vetted = vet_price("BTC/USD", &obs, now, &guard());
    assert_eq!(vetted, Err(LiquidationError::OracleError("BTC/USD".to_string())));
}

#[test]
fn test_vet_rejects_price_out_of_range() {
    let now: i64 = 1_700_000_000;
    let obs = RawObservation {
        price: 2_000_000_000_000_000_000,
        confidence: 10_000_000_000_000_000,
        expo: 0,
        publish_time: now - 1,
    };
    let vetted = vet_price("BTC/USD", &obs, now, &guard());
    assert_eq!(vetted, Err(LiquidationError::OracleError("BTC/USD".to_string())));
}

#[test]
fn test_scale_to_micro() {
    // 6e12 at exponent -8 is 60000 whole units: 6e10 micro-units.
    assert_eq!(scale_to_micro(6_000_000_000_000, -8), Some(60_000_000_000));
    // Exponent -6 leaves the mantissa as micro-units.
    assert_eq!(scale_to_micro(42, -6), Some(42));
    // Whole units scale up by a million.
    assert_eq!(scale_to_micro(60_000, 0), Some(60_000_000_000));
    // A non-positive mantissa does not scale.
    assert_eq!(scale_to_micro(0, 0), None);
    assert_eq!(scale_to_micro(-3, 0), None);
    // Values beyond the engine's bound do not scale.
    assert_eq!(scale_to_micro(2_000_000_000, 6), None);
    // A tiny value rounds down to zero.
    assert_eq!(scale_to_micro(9, -10), Some(0));
}

#[test]
fn test_error_domains() {
    let oracle_side = [
        LiquidationError::RpcError("x".to_string()),
        LiquidationError::OracleError("x".to_string()),
        LiquidationError::StalePrice("x".to_string()),
        LiquidationError::LowConfidencePrice("x".to_string()),
        LiquidationError::HighConfidenceInterval("x".to_string()),
    ];
    for e in oracle_side {
        assert_eq!(e.domain(), ErrorDomain::Oracle);
        assert!(e.skips_position());
        assert!(!e.is_retryable());
    }
    let execution_side = [
        LiquidationError::ProgramError("x".to_string()),
        LiquidationError::LiquidationFailed("x".to_string()),
        LiquidationError::SimulationFailed("x".to_string()),
        LiquidationError::ConfirmationTimeout,
        LiquidationError::Other("x".to_string()),
    ];
    for e in execution_side {
        assert_eq!(e.domain(), ErrorDomain::Execution);
        assert!(e.is_retryable());
        assert!(!e.skips_position());
    }
    assert_eq!(
        LiquidationError::ConfigError("x".to_string()).domain(),
        ErrorDomain::Configuration
    );
    assert_eq!(LiquidationError::PositionNotLiquidatable(7).domain(), ErrorDomain::Logic);
}

#[test]
fn test_error_display() {
    let error = LiquidationError::RpcError("Connection failed".to_string());
    assert_eq!(error.describe(), "RPC error: Connection failed");

    let error = LiquidationError::StalePrice("BTC/USD".to_string());
    assert_eq!(error.describe(), "Stale price for BTC/USD");

    let error = LiquidationError::Other("Something went wrong".to_string());
    assert_eq!(error.describe(), "Error: Something went wrong");
}
