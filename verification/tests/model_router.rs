use operator_core::domain::{ActionKind, Direction, ModelRole};
use operator_core::model_router::{
    default_adapters, direction_for_lowered_question, AnalysisRequest, HeuristicModelAdapter,
};

fn request(question: &str, sources: &[&str]) -> AnalysisRequest {
    AnalysisRequest {
        market: "ETH-USD".to_string(),
        question: question.to_string(),
        regime: "base".to_string(),
        time_horizon: "4h".to_string(),
        source_ids: sources.iter().map(|s| s.to_string()).collect(),
    }
}

#[test]
fn heuristic_reads_keywords_after_lowercasing() {
    let adapter = HeuristicModelAdapter::new("sentiment-core", ModelRole::SentimentNews);
    assert_eq!(adapter.directional_view("Watching for a BREAKOUT"), Direction::Long);
    assert_eq!(adapter.directional_view("Signs of Weakness"), Direction::Short);
    assert_eq!(adapter.directional_view("nothing to see"), Direction::Neutral);
    assert_eq!(adapter.directional_view("bullish but selling"), Direction::Long);
}

#[test]
fn heuristic_role_defaults() {
    assert_eq!(direction_for_lowered_question("flat", ModelRole::QuantPredictive), Direction::Long);
    assert_eq!(direction_for_lowered_question("flat", ModelRole::Risk), Direction::Neutral);
    assert_eq!(direction_for_lowered_question("short squeeze", ModelRole::QuantPredictive), Direction::Short);
}

#[test]
fn heuristic_infer_quant_output() {
    let adapter = HeuristicModelAdapter::new("quant-core", ModelRole::QuantPredictive);
    let out = adapter.infer(&request("range bound", &["market-feed", "news-wire"]));
    assert_eq!(out.model_name, "quant-core");
    assert_eq!(out.role, ModelRole::QuantPredictive);
    assert_eq!(out.direction, Direction::Long);
    assert_eq!(out.thesis, "quant-core sees Long conditions for ETH-USD over 4h");
    assert_eq!(out.confidence_hundredths, 74);
    assert_eq!(out.evidence_summary, "quant-core analyzed 2 approved sources");
    assert_eq!(out.evidence_source_id, "market-feed");
    assert_eq!(out.recommended_action, ActionKind::OpenLong);
    assert_eq!(out.recommended_size_thousandths, 20);
    assert!(!out.abstain);
    assert_eq!(out.latency_ms, 12);
    assert_eq!(out.cost_hundredths, 0);
    assert_eq!(out.source_refs, vec!["market-feed".to_string(), "news-wire".to_string()]);
    assert_eq!(
        out.invalidation_conditions,
        vec![
            "break of session support/resistance".to_string(),
            "regime flip detected by volatility monitor".to_string()
        ]
    );
    assert_eq!(out.risk_notes, vec!["size should be scaled by regime volatility".to_string()]);
}

#[test]
fn heuristic_risk_model_abstains_on_neutral() {
    let adapter = HeuristicModelAdapter::new("risk-context", ModelRole::Risk);
    let out = adapter.infer(&request("range bound", &[]));
    assert!(out.abstain);
    assert_eq!(out.recommended_action, ActionKind::Watch);
    assert_eq!(out.confidence_hundredths, 63);
    assert_eq!(out.recommended_size_thousandths, 10);
    assert_eq!(out.evidence_source_id, "unknown");
    assert_eq!(out.evidence_summary, "risk-context analyzed 0 approved sources");
}

#[test]
fn heuristic_reasoning_cost_and_summary_decimal() {
    let adapter = HeuristicModelAdapter::new("reasoning-core", ModelRole::Reasoning);
    let ids: Vec<String> = (0..12).map(|i| format!("s{}", i)).collect();
    let refs: Vec<&str> = ids.iter().map(|s| s.as_str()).collect();
    let out = adapter.infer(&request("bear market", &refs));
    assert_eq!(out.cost_hundredths, 4);
    assert_eq!(out.direction, Direction::Short);
    assert_eq!(out.evidence_summary, "reasoning-core analyzed 12 approved sources");
    assert_eq!(out.recommended_size_thousandths, 15);
    assert_eq!(out.confidence_hundredths, 68);
}

#[test]
fn default_router_lineup() {
    let adapters = default_adapters();
    let lineup: Vec<(&str, ModelRole)> = adapters.iter().map(|a| (a.name(), a.role())).collect();
    assert_eq!(
        lineup,
        vec![
            ("reasoning-core", ModelRole::Reasoning),
            ("market-structure-core", ModelRole::MarketStructure),
            ("sentiment-core", ModelRole::SentimentNews),
            ("quant-core", ModelRole::QuantPredictive),
            ("risk-context", ModelRole::Risk),
        ]
    );
}
