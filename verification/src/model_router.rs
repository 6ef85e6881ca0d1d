//! Heuristic model adapters: the direction a model reads into a question,
//! and the output it gives for an analysis request.
use vstd::prelude::*;

use crate::domain::{ActionKind, Direction, ModelRole, direction_label, direction_name};
use crate::text::{
    clone_strings, contains_text, decimal, lowercase, lowercase_of, push_decimal, push_text,
    str_contains,
};

verus! {

/// A request for model analysis of a market.
#[derive(Debug, Clone)]
pub struct AnalysisRequest {
    pub market: String,
    pub question: String,
    pub regime: String,
    pub time_horizon: String,
    pub source_ids: Vec<String>,
}

/// A failure of a model adapter.
#[derive(Debug, Clone)]
pub enum ModelRouterError {
    Adapter(String),
}

/// The lowered question speaks of upside.
pub open spec fn reads_bullish(lowered: Seq<char>) -> bool {
    ||| contains_text(lowered, "breakout"@)
    ||| contains_text(lowered, "bull"@)
    ||| contains_text(lowered, "long"@)
    ||| contains_text(lowered, "strength"@)
}

/// The lowered question speaks of downside.
pub open spec fn reads_bearish(lowered: Seq<char>) -> bool {
    ||| contains_text(lowered, "bear"@)
    ||| contains_text(lowered, "short"@)
    ||| contains_text(lowered, "sell"@)
    ||| contains_text(lowered, "weakness"@)
}

/// The direction a model of `role` reads into a lowercased question: upside
/// words first, then downside words, else the role's default.
pub open spec fn direction_for_lowered(lowered: Seq<char>, role: ModelRole) -> Direction {
    if reads_bullish(lowered) {
        Direction::Long
    } else if reads_bearish(lowered) {
        Direction::Short
    } else if role == ModelRole::QuantPredictive {
        Direction::Long
    } else {
        Direction::Neutral
    }
}

/// Confidence of each role, in hundredths.
pub open spec fn confidence_hundredths_for(role: ModelRole) -> u32 {
    match role {
        ModelRole::QuantPredictive => 74,
        ModelRole::MarketStructure => 70,
        ModelRole::SentimentNews => 66,
        ModelRole::Reasoning => 68,
        ModelRole::Risk => 63,
        ModelRole::Fusion => 60,
    }
}

/// Recommended size of each role, in thousandths.
pub open spec fn size_thousandths_for(role: ModelRole) -> u32 {
    match role {
        ModelRole::Risk => 10,
        ModelRole::QuantPredictive => 20,
        _ => 15,
    }
}

/// Cost of one inference of each role, in hundredths of a dollar.
pub open spec fn cost_hundredths_for(role: ModelRole) -> u32 {
    if role == ModelRole::Reasoning {
        4
    } else {
        0
    }
}

/// The action a direction recommends.
pub open spec fn action_for(direction: Direction) -> ActionKind {
    match direction {
        Direction::Long => ActionKind::OpenLong,
        Direction::Short => ActionKind::OpenShort,
        Direction::Neutral => ActionKind::Watch,
    }
}

/// A model abstains when it is the risk model and sees no direction.
pub open spec fn abstains(role: ModelRole, direction: Direction) -> bool {
    role == ModelRole::Risk && direction == Direction::Neutral
}

/// What a heuristic model outputs for a request; numeric quantities are
/// exact decimal fractions given as whole hundredths or thousandths.
#[derive(Debug, Clone)]
pub struct HeuristicOutput {
    pub model_name: String,
    pub role: ModelRole,
    pub thesis: String,
    pub direction: Direction,
    pub time_horizon: String,
    /// Confidence in hundredths; the evidence weight equals it.
    pub confidence_hundredths: u32,
    pub evidence_summary: String,
    pub evidence_source_id: String,
    pub invalidation_conditions: Vec<String>,
    pub risk_notes: Vec<String>,
    pub recommended_action: ActionKind,
    /// Recommended size in thousandths.
    pub recommended_size_thousandths: u32,
    pub abstain: bool,
    pub latency_ms: u64,
    /// Cost in hundredths of a dollar.
    pub cost_hundredths: u32,
    pub source_refs: Vec<String>,
}

/// The thesis text of a heuristic model.
pub open spec fn heuristic_thesis(
    name: Seq<char>,
    direction: Direction,
    market: Seq<char>,
    horizon: Seq<char>,
) -> Seq<char> {
    name + " sees "@ + direction_name(direction) + " conditions for "@ + market + " over "@ + horizon
}

/// The evidence summary of a heuristic model.
pub open spec fn heuristic_summary(name: Seq<char>, sources: nat) -> Seq<char> {
    name + " analyzed "@ + decimal(sources) + " approved sources"@
}

/// The source the evidence cites: the first source id, else "unknown".
pub open spec fn evidence_source(source_ids: Seq<String>) -> Seq<char> {
    if source_ids.len() > 0 {
        source_ids[0]@
    } else {
        "unknown"@
    }
}

/// The invalidation conditions every heuristic model lists.
pub open spec fn heuristic_invalidations() -> Seq<Seq<char>> {
    seq!["break of session support/resistance"@, "regime flip detected by volatility monitor"@]
}

/// The risk notes every heuristic model gives.
pub open spec fn heuristic_risk_notes() -> Seq<Seq<char>> {
    seq!["size should be scaled by regime volatility"@]
}

/// The direction a model of `role` reads into a question that is already
/// lowercased.
pub fn direction_for_lowered_question(lowered: &str, role: ModelRole) -> (d: Direction)
    ensures
        d == direction_for_lowered(lowered@, role),
        (contains_text(lowered@, "breakout"@) || contains_text(lowered@, "bull"@) || contains_text(lowered@, "long"@) || contains_text(lowered@, "strength"@)) ==> d == Direction::Long,
        !(contains_text(lowered@, "breakout"@) || contains_text(lowered@, "bull"@) || contains_text(lowered@, "long"@) || contains_text(lowered@, "strength"@)) && (contains_text(lowered@, "bear"@) || contains_text(lowered@, "short"@) || contains_text(lowered@, "sell"@) || contains_text(lowered@, "weakness"@)) ==> d == Direction::Short,
        !(contains_text(lowered@, "breakout"@) || contains_text(lowered@, "bull"@) || contains_text(lowered@, "long"@) || contains_text(lowered@, "strength"@)) && !(contains_text(lowered@, "bear"@) || contains_text(lowered@, "short"@) || contains_text(lowered@, "sell"@) || contains_text(lowered@, "weakness"@)) && role == ModelRole::QuantPredictive ==> d == Direction::Long,
        !(contains_text(lowered@, "breakout"@) || contains_text(lowered@, "bull"@) || contains_text(lowered@, "long"@) || contains_text(lowered@, "strength"@)) && !(contains_text(lowered@, "bear"@) || contains_text(lowered@, "short"@) || contains_text(lowered@, "sell"@) || contains_text(lowered@, "weakness"@)) && role != ModelRole::QuantPredictive ==> d == Direction::Neutral,
{
    if str_contains(lowered, "breakout") || str_contains(lowered, "bull") || str_contains(
        lowered,
        "long",
    ) || str_contains(lowered, "strength") {
        Direction::Long
    } else if str_contains(lowered, "bear") || str_contains(lowered, "short") || str_contains(
        lowered,
        "sell",
    ) || str_contains(lowered, "weakness") {
        Direction::Short
    } else {
        match role {
            ModelRole::QuantPredictive => Direction::Long,
            ModelRole::Risk => Direction::Neutral,
            _ => Direction::Neutral,
        }
    }
}

/// A model that reads a direction from keywords of the question.
#[derive(Debug, Clone)]
pub struct HeuristicModelAdapter {
    name: &'static str,
    role: ModelRole,
}

impl HeuristicModelAdapter {
    /// The model's name.
    pub closed spec fn name_view(&self) -> Seq<char> {
        self.name@
    }

    /// The model's role.
    pub closed spec fn role_view(&self) -> ModelRole {
        self.role
    }

    /// A heuristic model with the given name and role.
    pub fn new(name: &'static str, role: ModelRole) -> (adapter: HeuristicModelAdapter)
        ensures
            adapter.name_view() == name@,
            adapter.role_view() == role,
    {
        HeuristicModelAdapter { name, role }
    }

    /// The model's name.
    pub fn name(&self) -> (name: &'static str)
        ensures
            name@ == self.name_view(),
    {
        self.name
    }

    /// The model's role.
    pub fn role(&self) -> (role: ModelRole)
        ensures
            role == self.role_view(),
    {
        self.role
    }

    /// The direction the model reads into a question, after lowercasing it.
    pub fn directional_view(&self, question: &str) -> (d: Direction)
        ensures
            d == direction_for_lowered(lowercase_of(question@), self.role_view()),
            (contains_text(lowercase_of(question@), "breakout"@) || contains_text(lowercase_of(question@), "bull"@) || contains_text(lowercase_of(question@), "long"@) || contains_text(lowercase_of(question@), "strength"@)) ==> d == Direction::Long,
            !(contains_text(lowercase_of(question@), "breakout"@) || contains_text(lowercase_of(question@), "bull"@) || contains_text(lowercase_of(question@), "long"@) || contains_text(lowercase_of(question@), "strength"@)) && (contains_text(lowercase_of(question@), "bear"@) || contains_text(lowercase_of(question@), "short"@) || contains_text(lowercase_of(question@), "sell"@) || contains_text(lowercase_of(question@), "weakness"@)) ==> d == Direction::Short,
            !(contains_text(lowercase_of(question@), "breakout"@) || contains_text(lowercase_of(question@), "bull"@) || contains_text(lowercase_of(question@), "long"@) || contains_text(lowercase_of(question@), "strength"@)) && !(contains_text(lowercase_of(question@), "bear"@) || contains_text(lowercase_of(question@), "short"@) || contains_text(lowercase_of(question@), "sell"@) || contains_text(lowercase_of(question@), "weakness"@)) && self.role_view() == ModelRole::QuantPredictive ==> d == Direction::Long,
            !(contains_text(lowercase_of(question@), "breakout"@) || contains_text(lowercase_of(question@), "bull"@) || contains_text(lowercase_of(question@), "long"@) || contains_text(lowercase_of(question@), "strength"@)) && !(contains_text(lowercase_of(question@), "bear"@) || contains_text(lowercase_of(question@), "short"@) || contains_text(lowercase_of(question@), "sell"@) || contains_text(lowercase_of(question@), "weakness"@)) && self.role_view() != ModelRole::QuantPredictive ==> d == Direction::Neutral,
    {
        let lowered = lowercase(question);
        direction_for_lowered_question(lowered.as_str(), self.role)
    }

    /// The model's output for a request.
    pub fn infer(&self, request: &AnalysisRequest) -> (out: HeuristicOutput)
        ensures
            out.model_name@ == self.name_view(),
            out.role == self.role_view(),
            out.direction == direction_for_lowered(lowercase_of(request.question@), self.role_view()),
            out.thesis@ == heuristic_thesis(
                self.name_view(),
                out.direction,
                request.market@,
                request.time_horizon@,
            ),
            out.time_horizon@ == request.time_horizon@,
            out.confidence_hundredths == confidence_hundredths_for(self.role_view()),
            out.evidence_summary@ == heuristic_summary(
                self.name_view(),
                request.source_ids@.len(),
            ),
            out.evidence_source_id@ == evidence_source(request.source_ids@),
            out.invalidation_conditions.deep_view() == heuristic_invalidations(),
            out.risk_notes.deep_view() == heuristic_risk_notes(),
            out.recommended_action == action_for(out.direction),
            out.recommended_size_thousandths == size_thousandths_for(self.role_view()),
            out.abstain == abstains(self.role_view(), out.direction),
            out.latency_ms == 12,
            out.cost_hundredths == cost_hundredths_for(self.role_view()),
            out.source_refs@ == request.source_ids@,
            (contains_text(lowercase_of(request.question@), "breakout"@) || contains_text(lowercase_of(request.question@), "bull"@) || contains_text(lowercase_of(request.question@), "long"@) || contains_text(lowercase_of(request.question@), "strength"@)) ==> out.direction == Direction::Long,
            !(contains_text(lowercase_of(request.question@), "breakout"@) || contains_text(lowercase_of(request.question@), "bull"@) || contains_text(lowercase_of(request.question@), "long"@) || contains_text(lowercase_of(request.question@), "strength"@)) && (contains_text(lowercase_of(request.question@), "bear"@) || contains_text(lowercase_of(request.question@), "short"@) || contains_text(lowercase_of(request.question@), "sell"@) || contains_text(lowercase_of(request.question@), "weakness"@)) ==> out.direction == Direction::Short,
            !(contains_text(lowercase_of(request.question@), "breakout"@) || contains_text(lowercase_of(request.question@), "bull"@) || contains_text(lowercase_of(request.question@), "long"@) || contains_text(lowercase_of(request.question@), "strength"@)) && !(contains_text(lowercase_of(request.question@), "bear"@) || contains_text(lowercase_of(request.question@), "short"@) || contains_text(lowercase_of(request.question@), "sell"@) || contains_text(lowercase_of(request.question@), "weakness"@)) && self.role_view() == ModelRole::QuantPredictive ==> out.direction == Direction::Long,
            !(contains_text(lowercase_of(request.question@), "breakout"@) || contains_text(lowercase_of(request.question@), "bull"@) || contains_text(lowercase_of(request.question@), "long"@) || contains_text(lowercase_of(request.question@), "strength"@)) && !(contains_text(lowercase_of(request.question@), "bear"@) || contains_text(lowercase_of(request.question@), "short"@) || contains_text(lowercase_of(request.question@), "sell"@) || contains_text(lowercase_of(request.question@), "weakness"@)) && self.role_view() != ModelRole::QuantPredictive ==> out.direction == Direction::Neutral,
            out.direction == Direction::Long ==> out.recommended_action == ActionKind::OpenLong,
            out.direction == Direction::Short ==> out.recommended_action == ActionKind::OpenShort,
            out.direction == Direction::Neutral ==> out.recommended_action == ActionKind::Watch,
            out.abstain <==> (self.role_view() == ModelRole::Risk && out.direction
                == Direction::Neutral),
            out.thesis@ == self.name_view() + " sees "@ + direction_name(out.direction)
                + " conditions for "@ + request.market@ + " over "@ + request.time_horizon@,
            out.evidence_summary@ == self.name_view() + " analyzed "@ + decimal(
                request.source_ids@.len(),
            ) + " approved sources"@,
            request.source_ids@.len() > 0 ==> out.evidence_source_id@ == request.source_ids@[0]@,
            request.source_ids@.len() == 0 ==> out.evidence_source_id@ == "unknown"@,
            out.invalidation_conditions.deep_view() == seq![
                "break of session support/resistance"@,
                "regime flip detected by volatility monitor"@,
            ],
            out.risk_notes.deep_view() == seq!["size should be scaled by regime volatility"@],
    {
        let direction = self.directional_view(request.question.as_str());
        let confidence_hundredths: u32 = match self.role {
            ModelRole::QuantPredictive => 74,
            ModelRole::MarketStructure => 70,
            ModelRole::SentimentNews => 66,
            ModelRole::Reasoning => 68,
            ModelRole::Risk => 63,
            ModelRole::Fusion => 60,
        };
        let recommended_action = match direction {
            Direction::Long => ActionKind::OpenLong,
            Direction::Short => ActionKind::OpenShort,
            Direction::Neutral => ActionKind::Watch,
        };
        let recommended_size_thousandths: u32 = match self.role {
            ModelRole::Risk => 10,
            ModelRole::QuantPredictive => 20,
            _ => 15,
        };
        let abstain = self.role == ModelRole::Risk && direction == Direction::Neutral;

        let mut thesis = String::from_str(self.name);
        push_text(&mut thesis, " sees ");
        let label = direction_label(direction);
        push_text(&mut thesis, label.as_str());
        push_text(&mut thesis, " conditions for ");
        push_text(&mut thesis, request.market.as_str());
        push_text(&mut thesis, " over ");
        push_text(&mut thesis, request.time_horizon.as_str());

        let mut summary = String::from_str(self.name);
        push_text(&mut summary, " analyzed ");
        push_decimal(&mut summary, request.source_ids.len() as u64);
        push_text(&mut summary, " approved sources");

        let source_id = if request.source_ids.len() > 0 {
            request.source_ids[0].clone()
        } else {
            String::from_str("unknown")
        };

        let mut invalidation_conditions: Vec<String> = Vec::new();
        invalidation_conditions.push(String::from_str("break of session support/resistance"));
        invalidation_conditions.push(String::from_str("regime flip detected by volatility monitor"));
        let mut risk_notes: Vec<String> = Vec::new();
        risk_notes.push(String::from_str("size should be scaled by regime volatility"));
        assert(invalidation_conditions.deep_view() =~= heuristic_invalidations());
        assert(risk_notes.deep_view() =~= heuristic_risk_notes());

        let cost_hundredths: u32 = if self.role == ModelRole::Reasoning {
            4
        } else {
            0
        };
        HeuristicOutput {
            model_name: String::from_str(self.name),
            role: self.role,
            thesis,
            direction,
            time_horizon: request.time_horizon.clone(),
            confidence_hundredths,
            evidence_summary: summary,
            evidence_source_id: source_id,
            invalidation_conditions,
            risk_notes,
            recommended_action,
            recommended_size_thousandths,
            abstain,
            latency_ms: 12,
            cost_hundredths,
            source_refs: clone_strings(&request.source_ids),
        }
    }
}

/// The names and roles of the default router's models, in order.
pub open spec fn default_model_lineup() -> Seq<(Seq<char>, ModelRole)> {
    seq![
        ("reasoning-core"@, ModelRole::Reasoning),
        ("market-structure-core"@, ModelRole::MarketStructure),
        ("sentiment-core"@, ModelRole::SentimentNews),
        ("quant-core"@, ModelRole::QuantPredictive),
        ("risk-context"@, ModelRole::Risk),
    ]
}

/// The models of the default router: one heuristic model per analysis role.
pub fn default_adapters() -> (adapters: Vec<HeuristicModelAdapter>)
    ensures
        adapters@.len() == default_model_lineup().len(),
        forall|i: int|
            0 <= i < adapters@.len() ==> (#[trigger] adapters@[i]).name_view()
                == default_model_lineup()[i].0 && adapters@[i].role_view()
                == default_model_lineup()[i].1,
{
    let mut adapters: Vec<HeuristicModelAdapter> = Vec::new();
    adapters.push(HeuristicModelAdapter::new("reasoning-core", ModelRole::Reasoning));
    adapters.push(HeuristicModelAdapter::new("market-structure-core", ModelRole::MarketStructure));
    adapters.push(HeuristicModelAdapter::new("sentiment-core", ModelRole::SentimentNews));
    adapters.push(HeuristicModelAdapter::new("quant-core", ModelRole::QuantPredictive));
    adapters.push(HeuristicModelAdapter::new("risk-context", ModelRole::Risk));
    adapters
}

/// The risk model abstains exactly when it sees no direction; every other
/// model always gives a view.
pub proof fn lemma_only_risk_model_abstains(role: ModelRole, direction: Direction)
    ensures
        abstains(role, direction) ==> action_for(direction) == ActionKind::Watch,
        role != ModelRole::Risk ==> !abstains(role, direction),
{
}

/// A question with an upside keyword leads every model long; the quant model
/// leans long even without keywords.
pub proof fn lemma_bullish_words_lead_long(lowered: Seq<char>, role: ModelRole)
    ensures
        reads_bullish(lowered) ==> direction_for_lowered(lowered, role) == Direction::Long,
        role == ModelRole::QuantPredictive && !reads_bearish(lowered) ==> direction_for_lowered(
            lowered,
            role,
        ) == Direction::Long,
{
}

} // verus!

verus! {

/// Every downside keyword leads a model short when no upside keyword occurs;
/// every upside keyword leads it long; without keywords only the quant model
/// leans (long).
pub proof fn lemma_keywords_decide_direction(lowered: Seq<char>, role: ModelRole)
    ensures
        contains_text(lowered, "breakout"@) ==> direction_for_lowered(lowered, role)
            == Direction::Long,
        contains_text(lowered, "bull"@) ==> direction_for_lowered(lowered, role) == Direction::Long,
        contains_text(lowered, "long"@) ==> direction_for_lowered(lowered, role) == Direction::Long,
        contains_text(lowered, "strength"@) ==> direction_for_lowered(lowered, role)
            == Direction::Long,
        !reads_bullish(lowered) && contains_text(lowered, "bear"@) ==> direction_for_lowered(
            lowered,
            role,
        ) == Direction::Short,
        !reads_bullish(lowered) && contains_text(lowered, "short"@) ==> direction_for_lowered(
            lowered,
            role,
        ) == Direction::Short,
        !reads_bullish(lowered) && contains_text(lowered, "sell"@) ==> direction_for_lowered(
            lowered,
            role,
        ) == Direction::Short,
        !reads_bullish(lowered) && contains_text(lowered, "weakness"@) ==> direction_for_lowered(
            lowered,
            role,
        ) == Direction::Short,
        reads_bullish(lowered) == (contains_text(lowered, "breakout"@) || contains_text(
            lowered,
            "bull"@,
        ) || contains_text(lowered, "long"@) || contains_text(lowered, "strength"@)),
        !reads_bullish(lowered) && !reads_bearish(lowered) ==> direction_for_lowered(lowered, role)
            == (if role == ModelRole::QuantPredictive {
            Direction::Long
        } else {
            Direction::Neutral
        }),
{
}

/// The action a view recommends opens a position on its side, and only
/// watches on a neutral view.
pub proof fn lemma_action_matches_direction()
    ensures
        action_for(Direction::Long) == ActionKind::OpenLong,
        action_for(Direction::Short) == ActionKind::OpenShort,
        action_for(Direction::Neutral) == ActionKind::Watch,
{
}

/// The heuristic numbers per role: the quant model is the most confident and
/// sizes largest, the risk model sizes smallest, only reasoning costs.
pub proof fn lemma_heuristic_role_numbers(role: ModelRole)
    ensures
        confidence_hundredths_for(ModelRole::QuantPredictive) == 74,
        confidence_hundredths_for(ModelRole::MarketStructure) == 70,
        confidence_hundredths_for(ModelRole::SentimentNews) == 66,
        confidence_hundredths_for(ModelRole::Reasoning) == 68,
        confidence_hundredths_for(ModelRole::Risk) == 63,
        confidence_hundredths_for(ModelRole::Fusion) == 60,
        confidence_hundredths_for(role) <= confidence_hundredths_for(ModelRole::QuantPredictive),
        size_thousandths_for(ModelRole::Risk) == 10,
        size_thousandths_for(ModelRole::QuantPredictive) == 20,
        role != ModelRole::Risk && role != ModelRole::QuantPredictive ==> size_thousandths_for(role)
            == 15,
        cost_hundredths_for(ModelRole::Reasoning) == 4,
        role != ModelRole::Reasoning ==> cost_hundredths_for(role) == 0,
{
}

} // verus!
