use operator_core::domain::{DecisionStatus, OperationalMode};
use operator_core::risk::{RiskEngine, RiskPolicyConfig, RiskSignals, SizeCap};

/// Signals as the caller measures them: the thesis and portfolio of the
/// original test against the default numeric thresholds.
fn signals(
    abstain: bool,
    confidence: f32,
    open_positions: usize,
    daily_pnl: f64,
    weekly_pnl: f64,
    correlated: f64,
    market: &str,
) -> RiskSignals {
    let floor = 0.58f32;
    RiskSignals {
        thesis_abstained: abstain,
        confidence_below_floor: confidence < floor,
        confidence_text: format!("{:.2}", confidence),
        floor_text: format!("{:.2}", floor),
        open_positions,
        daily_loss_breached: daily_pnl <= -5_000.0,
        weekly_drawdown_breached: weekly_pnl <= -15_000.0,
        correlated_exposure_breached: correlated >= 0.35,
        market: market.to_string(),
    }
}

fn sample_signals() -> RiskSignals {
    signals(false, 0.74, 1, 0.0, 0.0, 0.1, "BTC-USD")
}

#[test]
fn risk_engine_requires_human_approval_in_live_mode() {
    let engine = RiskEngine::new(RiskPolicyConfig::default());
    let decision = engine.evaluate(&sample_signals(), OperationalMode::Live);
    assert!(!decision.approved);
    assert!(matches!(decision.status, DecisionStatus::RequiresHumanApproval));
    assert!(decision.required_approvals.contains(&"human_operator".to_string()));
}

#[test]
fn risk_engine_approves_clean_paper_thesis() {
    let engine = RiskEngine::new(RiskPolicyConfig::default());
    let decision = engine.evaluate(&sample_signals(), OperationalMode::Paper);
    assert!(decision.approved);
    assert_eq!(decision.status, DecisionStatus::Approved);
    assert!(decision.reasons.is_empty());
    assert_eq!(decision.size_cap, SizeCap::PolicyMax);
    assert_eq!(decision.required_approvals, vec!["risk_engine".to_string()]);
    assert!(decision.kill_switch_armed);
}

#[test]
fn risk_engine_lists_every_failed_check_in_order() {
    let mut policy = RiskPolicyConfig::default();
    policy.blackout_markets = vec!["ETH-USD".to_string(), "BTC-USD".to_string()];
    let engine = RiskEngine::new(policy);
    let s = signals(true, 0.5, 8, -5_000.0, -20_000.0, 0.35, "BTC-USD");
    let decision = engine.evaluate(&s, OperationalMode::Live);
    assert!(!decision.approved);
    assert_eq!(decision.status, DecisionStatus::Rejected);
    assert_eq!(decision.size_cap, SizeCap::Zero);
    assert_eq!(
        decision.reasons,
        vec![
            "fusion layer abstained".to_string(),
            "confidence 0.50 is below floor 0.58".to_string(),
            "open position limit reached".to_string(),
            "daily loss threshold breached".to_string(),
            "weekly drawdown threshold breached".to_string(),
            "correlated exposure cap breached".to_string(),
            "market is in blackout window".to_string(),
        ]
    );
    assert_eq!(decision.required_approvals, vec!["risk_engine".to_string()]);
}

#[test]
fn risk_engine_rejects_single_blackout_market() {
    let mut policy = RiskPolicyConfig::default();
    policy.blackout_markets = vec!["BTC-USD".to_string()];
    let engine = RiskEngine::new(policy);
    let decision = engine.evaluate(&sample_signals(), OperationalMode::Research);
    assert_eq!(decision.status, DecisionStatus::Rejected);
    assert_eq!(decision.reasons, vec!["market is in blackout window".to_string()]);
}

#[test]
fn risk_engine_live_without_human_policy_approves() {
    let mut policy = RiskPolicyConfig::default();
    policy.live_requires_human_approval = false;
    let engine = RiskEngine::new(policy);
    let decision = engine.evaluate(&sample_signals(), OperationalMode::Live);
    assert!(decision.approved);
    assert_eq!(decision.required_approvals, vec!["risk_engine".to_string()]);
}

#[test]
fn risk_engine_worse_portfolio_is_not_approved_more() {
    let engine = RiskEngine::new(RiskPolicyConfig::default());
    let better = sample_signals();
    let worse = signals(false, 0.74, 9, 0.0, 0.0, 0.1, "BTC-USD");
    let a = engine.evaluate(&better, OperationalMode::Paper);
    let b = engine.evaluate(&worse, OperationalMode::Paper);
    assert!(a.approved);
    assert!(!b.approved);
    assert_eq!(b.reasons, vec!["open position limit reached".to_string()]);
}

#[test]
fn risk_policy_default_limits() {
    let policy = RiskPolicyConfig::default();
    assert_eq!(policy.max_open_positions, 8);
    assert!(policy.live_requires_human_approval);
    assert!(policy.blackout_markets.is_empty());
}
