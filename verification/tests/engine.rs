use stg_mamba::indicators::engine::{IndicatorEngine, TimescaleConfig};

#[test]
fn test_timescale_config() {
    let config = TimescaleConfig::default();

    assert!(!config.very_short.is_empty());
    assert!(!config.short.is_empty());
    assert!(!config.medium.is_empty());

    let all = config.all_periods();
    assert!(all.len() > 5);
}

#[test]
fn timescale_periods_in_order() {
    let config = TimescaleConfig::default();
    assert_eq!(config.all_periods(), vec![5, 10, 14, 20, 30, 50, 100, 200, 500]);
    assert_eq!(config.count(), 9);
    let custom = TimescaleConfig {
        very_short: vec![],
        short: vec![7],
        medium: vec![],
        long: vec![300, 600],
    };
    assert_eq!(custom.all_periods(), vec![7, 300, 600]);
    assert_eq!(custom.count(), 3);
}

#[test]
fn feature_dimension_formula() {
    assert_eq!(IndicatorEngine::default().feature_dimension(), 6 * 9 + 26);
    let empty = TimescaleConfig { very_short: vec![], short: vec![], medium: vec![], long: vec![] };
    assert_eq!(IndicatorEngine::new(empty).feature_dimension(), 26);
}

fn plan_count(p: &stg_mamba::IndicatorPlan) -> usize {
    p.rsi.len()
        + 2 * p.macd.len()
        + 2 * p.bollinger.len()
        + p.atr.len()
        + 2 * p.moving_average.len()
        + p.stochastic.len()
        + 1
        + p.adx.len()
        + p.volume_roc.len()
        + p.mfi.len()
        + p.returns.len()
}

#[test]
fn plan_matches_dimension_with_long_history() {
    let engine = IndicatorEngine::default();
    let plan = engine.plan(1000, 1000, 1000);
    assert_eq!(plan.rsi, vec![5, 10, 14, 20, 30, 50, 100, 200, 500]);
    assert_eq!(plan.macd, vec![12, 26, 50, 100]);
    assert_eq!(plan.stochastic, vec![14, 20, 50]);
    assert!(plan.fibonacci);
    assert_eq!(plan.returns, vec![1, 5, 10, 20, 50]);
    assert_eq!(plan_count(&plan), engine.feature_dimension());
}

#[test]
fn plan_with_short_history() {
    let engine = IndicatorEngine::default();
    let plan = engine.plan(60, 20, 0);
    assert_eq!(plan.rsi, vec![5, 10, 14, 20, 30, 50]);
    assert_eq!(plan.bollinger, vec![5, 10, 14, 20, 30, 50]);
    assert_eq!(plan.moving_average, vec![5, 10, 14, 20, 30, 50]);
    assert_eq!(plan.atr, vec![5, 10, 14]);
    assert_eq!(plan.macd, vec![12, 26]);
    assert_eq!(plan.stochastic, vec![14]);
    assert_eq!(plan.adx, vec![14]);
    assert!(!plan.fibonacci);
    assert!(plan.volume_roc.is_empty());
    assert!(plan.mfi.is_empty());
    assert_eq!(plan.returns, vec![1, 5, 10, 20, 50]);
    assert!(plan_count(&plan) < engine.feature_dimension());
}

#[test]
fn plan_boundaries() {
    let engine = IndicatorEngine::default();
    // A moving average needs as many points as its period; the others need one more.
    let plan = engine.plan(50, 50, 50);
    assert_eq!(plan.moving_average, vec![5, 10, 14, 20, 30, 50]);
    assert_eq!(plan.rsi, vec![5, 10, 14, 20, 30]);
    // MACD at period p needs more than 2p points.
    let plan = engine.plan(52, 51, 11);
    assert_eq!(plan.macd, vec![12]);
    let plan = engine.plan(53, 51, 11);
    assert_eq!(plan.macd, vec![12, 26]);
    assert_eq!(plan.volume_roc, vec![10]);
    assert_eq!(plan.mfi, vec![10, 20, 50]);
    assert!(!engine.plan(100, 0, 0).fibonacci);
    assert!(engine.plan(101, 0, 0).fibonacci);
}
