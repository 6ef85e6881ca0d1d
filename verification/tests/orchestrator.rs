use operator_core::desktop::desktop_runtime_health;
use operator_core::domain::{Direction, OperationalMode};
use operator_core::orchestrator::{audit_status, blocked_summary, default_account_id, regime_for_message};
use operator_core::text::to_lower_hex;

#[test]
fn chat_regime_follows_volatility_mentions() {
    assert_eq!(regime_for_message("How does VOLATILITY affect BTC?"), "volatile");
    assert_eq!(regime_for_message("Assess BTC"), "base");
}

#[test]
fn default_portfolio_accounts_per_mode() {
    assert_eq!(default_account_id(OperationalMode::Research), "research");
    assert_eq!(default_account_id(OperationalMode::Backtest), "backtest");
    assert_eq!(default_account_id(OperationalMode::Paper), "paper");
    assert_eq!(default_account_id(OperationalMode::Live), "live");
}

#[test]
fn blocked_summary_joins_reasons() {
    let reasons = vec!["fusion layer abstained".to_string(), "open position limit reached".to_string()];
    assert_eq!(
        blocked_summary(&reasons),
        "Execution blocked: fusion layer abstained; open position limit reached"
    );
    assert_eq!(blocked_summary(&vec![]), "Execution blocked: ");
    assert_eq!(audit_status(true), "approved");
    assert_eq!(audit_status(false), "blocked");
}

#[test]
fn desktop_health_reports_runtime() {
    let health = desktop_runtime_health();
    assert_eq!(health.shell, "tauri");
    assert_eq!(health.secure_store, "os-keychain");
    assert_eq!(health.command_bus, "local-rust-control-plane");
}

#[test]
fn direction_scores_and_hex() {
    assert_eq!(Direction::Long.score(), 1);
    assert_eq!(Direction::Short.score(), -1);
    assert_eq!(Direction::Neutral.score(), 0);
    assert_eq!(to_lower_hex(&[0x00, 0xab, 0x7f]), "00ab7f");
}
