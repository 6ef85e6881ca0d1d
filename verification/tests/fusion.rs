use operator_core::domain::{ActionKind, Direction, ModelRole};
use operator_core::fusion::{conclude_fusion, FusionEngine, FusionGauges, OutputDigest};
use operator_core::model_router::AnalysisRequest;

struct Sample {
    role: ModelRole,
    direction: Direction,
    confidence: f32,
    abstain: bool,
}

fn digest(name: &str, direction: Direction, abstain: bool, notes: &[&str], evidence: usize, refs: &[&str]) -> OutputDigest {
    OutputDigest {
        model_name: name.to_string(),
        direction,
        abstain,
        risk_notes: notes.iter().map(|n| n.to_string()).collect(),
        evidence_count: evidence,
        source_refs: refs.iter().map(|r| r.to_string()).collect(),
    }
}

/// The weighted measures over the active samples, with the engine's weights.
fn gauges(engine: &FusionEngine, regime: &str, samples: &[Sample]) -> (FusionGauges, f32) {
    let active: Vec<&Sample> = samples.iter().filter(|s| !s.abstain).collect();
    let w = |s: &Sample| engine.weight_for(regime, s.role) as f32 / 10.0;
    let total = active.iter().map(|s| w(s)).sum::<f32>().max(1.0);
    let score = active.iter().map(|s| w(s) * s.direction.score() as f32).sum::<f32>() / total;
    let confidence = active.iter().map(|s| w(s) * s.confidence).sum::<f32>() / total;
    let disagreement = active
        .iter()
        .map(|s| (s.direction.score() as f32 - score).abs() * w(s))
        .sum::<f32>()
        / total;
    (
        FusionGauges {
            score_above_long_threshold: score > 0.2,
            score_below_short_threshold: score < -0.2,
            confidence_above_overconfidence: confidence > 0.78,
            disagreement_above_overconfidence: disagreement > 0.35,
            confidence_below_floor: confidence < 0.55,
            disagreement_above_ceiling: disagreement > 0.60,
        },
        disagreement,
    )
}

fn request(regime: &str) -> AnalysisRequest {
    AnalysisRequest {
        market: "BTC-USD".to_string(),
        question: "Assess BTC".to_string(),
        regime: regime.to_string(),
        time_horizon: "1d".to_string(),
        source_ids: vec!["src-1".to_string()],
    }
}

#[test]
fn fusion_abstains_when_disagreement_is_high() {
    let engine = FusionEngine::default();
    let request = request("volatile");
    let samples = [
        Sample { role: ModelRole::QuantPredictive, direction: Direction::Long, confidence: 0.82, abstain: false },
        Sample { role: ModelRole::SentimentNews, direction: Direction::Short, confidence: 0.81, abstain: false },
    ];
    let outputs = vec![
        digest("quant", Direction::Long, false, &["volatility elevated"], 1, &["src-1"]),
        digest("sentiment", Direction::Short, false, &["macro headlines negative"], 0, &["src-1"]),
    ];
    let (g, disagreement_score) = gauges(&engine, &request.regime, &samples);
    let fused = conclude_fusion(&request, &outputs, &g);
    assert!(fused.abstain);
    assert!(disagreement_score > 0.6);
    assert_eq!(fused.recommended_action, ActionKind::Watch);
    assert_eq!(fused.direction, Direction::Neutral);
    assert_eq!(
        fused.thesis,
        "Abstain on BTC-USD until model disagreement narrows or fresher evidence arrives"
    );
    assert_eq!(fused.source_refs, vec!["src-1".to_string()]);
    assert_eq!(fused.evidence_positions, vec![(0, 0)]);
    assert_eq!(fused.dissenters.len(), 2);
    assert_eq!(fused.dissenters[0].output, 0);
    assert_eq!(fused.dissenters[0].reason, "volatility elevated");
    assert_eq!(fused.dissenters[1].reason, "macro headlines negative");
    assert!(fused.overconfidence_flag);
    assert_eq!(
        fused.why_not,
        vec!["ensemble confidence is high while disagreement remains elevated".to_string()]
    );
}

#[test]
fn fusion_weights_follow_regime_with_base_fallback() {
    let engine = FusionEngine::default();
    assert_eq!(engine.weight_for("base", ModelRole::QuantPredictive), 13);
    assert_eq!(engine.weight_for("volatile", ModelRole::SentimentNews), 13);
    assert_eq!(engine.weight_for("volatile", ModelRole::Risk), 11);
    assert_eq!(engine.weight_for("sideways", ModelRole::MarketStructure), 12);
    assert_eq!(engine.weight_for("base", ModelRole::Fusion), 10);
    assert_eq!(engine.weight_for("volatile", ModelRole::Fusion), 10);
}

#[test]
fn fusion_agreeing_models_go_long() {
    let engine = FusionEngine::default();
    let request = request("base");
    let samples = [
        Sample { role: ModelRole::QuantPredictive, direction: Direction::Long, confidence: 0.74, abstain: false },
        Sample { role: ModelRole::Reasoning, direction: Direction::Long, confidence: 0.68, abstain: false },
        Sample { role: ModelRole::Risk, direction: Direction::Neutral, confidence: 0.63, abstain: true },
    ];
    let outputs = vec![
        digest("quant-core", Direction::Long, false, &[], 2, &["news-wire", "market-feed"]),
        digest("reasoning-core", Direction::Long, false, &[], 2, &["market-feed", "alpha"]),
        digest("risk-context", Direction::Neutral, true, &[], 5, &["news-wire"]),
    ];
    let (g, _) = gauges(&engine, &request.regime, &samples);
    let fused = conclude_fusion(&request, &outputs, &g);
    assert!(!fused.abstain);
    assert_eq!(fused.direction, Direction::Long);
    assert_eq!(fused.recommended_action, ActionKind::OpenLong);
    assert_eq!(
        fused.thesis,
        "Consensus leans Long on BTC-USD over 1d with regime-aware weighted evidence"
    );
    assert_eq!(
        fused.source_refs,
        vec!["alpha".to_string(), "market-feed".to_string(), "news-wire".to_string()]
    );
    assert_eq!(
        fused.evidence_positions,
        vec![(0, 0), (0, 1), (1, 0), (1, 1), (2, 0), (2, 1), (2, 2), (2, 3)]
    );
    assert!(fused.dissenters.is_empty());
    assert_eq!(fused.why_not, vec!["risk-context abstained due to low conviction".to_string()]);
}

#[test]
fn fusion_without_active_outputs_abstains() {
    let outputs = vec![digest("risk-context", Direction::Neutral, true, &[], 0, &[])];
    let g = FusionGauges {
        score_above_long_threshold: false,
        score_below_short_threshold: false,
        confidence_above_overconfidence: false,
        disagreement_above_overconfidence: false,
        confidence_below_floor: true,
        disagreement_above_ceiling: false,
    };
    let fused = conclude_fusion(&request("base"), &outputs, &g);
    assert!(fused.abstain);
    assert_eq!(fused.recommended_action, ActionKind::Watch);
    assert!(fused.source_refs.is_empty());
}

#[test]
fn fusion_overconfidence_flags_and_explains() {
    let outputs = vec![
        digest("a", Direction::Long, false, &[], 0, &[]),
        digest("b", Direction::Short, false, &[], 0, &[]),
    ];
    let g = FusionGauges {
        score_above_long_threshold: true,
        score_below_short_threshold: false,
        confidence_above_overconfidence: true,
        disagreement_above_overconfidence: true,
        confidence_below_floor: false,
        disagreement_above_ceiling: false,
    };
    let fused = conclude_fusion(&request("base"), &outputs, &g);
    assert!(fused.overconfidence_flag);
    assert!(fused.abstain);
    assert_eq!(fused.direction, Direction::Long);
    assert_eq!(fused.dissenters.len(), 1);
    assert_eq!(fused.dissenters[0].output, 1);
    assert_eq!(fused.dissenters[0].reason, "model diverged from consensus");
    assert_eq!(
        fused.why_not,
        vec!["ensemble confidence is high while disagreement remains elevated".to_string()]
    );
}

#[test]
fn fusion_neutral_consensus_holds() {
    let outputs = vec![digest("a", Direction::Neutral, false, &[], 0, &[])];
    let g = FusionGauges {
        score_above_long_threshold: false,
        score_below_short_threshold: false,
        confidence_above_overconfidence: false,
        disagreement_above_overconfidence: false,
        confidence_below_floor: false,
        disagreement_above_ceiling: false,
    };
    let fused = conclude_fusion(&request("base"), &outputs, &g);
    assert!(!fused.abstain);
    assert_eq!(fused.recommended_action, ActionKind::Hold);
}
