use operator_core::domain::{ActionKind, Direction, OperationalMode};
use operator_core::execution::{stage_order, StagedKind};

fn approvals(names: &[&str]) -> Vec<String> {
    names.iter().map(|n| n.to_string()).collect()
}

#[test]
fn staging_requires_risk_engine_approval() {
    let r = stage_order(&approvals(&["human_operator"]), ActionKind::OpenLong, OperationalMode::Paper);
    assert_eq!(r.unwrap_err(), "risk_engine approval missing");
}

#[test]
fn staging_refuses_research_and_backtest() {
    let a = approvals(&["risk_engine"]);
    assert_eq!(
        stage_order(&a, ActionKind::OpenLong, OperationalMode::Research).unwrap_err(),
        "execution staging only supports paper or live mode"
    );
    assert_eq!(
        stage_order(&a, ActionKind::OpenLong, OperationalMode::Backtest).unwrap_err(),
        "execution staging only supports paper or live mode"
    );
}

#[test]
fn staging_paper_trade_long() {
    let plan = stage_order(&approvals(&["risk_engine"]), ActionKind::OpenLong, OperationalMode::Paper)
        .unwrap();
    assert_eq!(plan.kind, StagedKind::Paper);
    assert_eq!(plan.side, Direction::Long);
    assert_eq!(plan.status, "staged");
}

#[test]
fn staging_live_order_short_and_neutral() {
    let a = approvals(&["human_operator", "risk_engine"]);
    let plan = stage_order(&a, ActionKind::OpenShort, OperationalMode::Live).unwrap();
    assert_eq!(plan.kind, StagedKind::Live);
    assert_eq!(plan.side, Direction::Short);
    assert_eq!(plan.status, "awaiting_submission");
    let hedge = stage_order(&a, ActionKind::Hedge, OperationalMode::Live).unwrap();
    assert_eq!(hedge.side, Direction::Neutral);
}
