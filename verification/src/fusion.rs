//! Fusion of model outputs: regime-aware weights, the consensus direction,
//! abstention, dissent, and the provenance the fused thesis carries.
use vstd::prelude::*;

use crate::domain::{ActionKind, Direction, ModelRole, direction_label, direction_name};
use crate::model_router::AnalysisRequest;
use crate::text::{chars_lt, chars_of, lemma_text_lt_irreflexive, lemma_text_lt_total,
    lemma_text_lt_transitive, push_text, string_from_chars, text_lt};

verus! {

/// Role weights of one market regime, in tenths.
#[derive(Debug, Clone)]
pub struct RegimeWeights {
    regime: String,
    weights: Vec<(ModelRole, u32)>,
}

/// The fusion engine: a weight table per regime.
#[derive(Debug, Clone)]
pub struct FusionEngine {
    regime_weights: Vec<RegimeWeights>,
}

/// A weight table: role weights in tenths.
pub type WeightTable = Seq<(ModelRole, u32)>;

/// The table of the first entry named `regime`, looking from position `from`.
pub open spec fn find_table(
    tables: Seq<(Seq<char>, WeightTable)>,
    regime: Seq<char>,
    from: int,
) -> Option<WeightTable>
    decreases tables.len() - from,
{
    if from < 0 || from >= tables.len() {
        None
    } else if tables[from].0 == regime {
        Some(tables[from].1)
    } else {
        find_table(tables, regime, from + 1)
    }
}

/// The weight of `role` in a table, looking from position `from`.
pub open spec fn find_weight(table: WeightTable, role: ModelRole, from: int) -> Option<u32>
    decreases table.len() - from,
{
    if from < 0 || from >= table.len() {
        None
    } else if table[from].0 == role {
        Some(table[from].1)
    } else {
        find_weight(table, role, from + 1)
    }
}

/// The weight, in tenths, of a model of `role` in `regime`: the regime's own
/// table, else the "base" table; a role missing from the table weighs 1.0.
pub open spec fn weight_tenths(
    tables: Seq<(Seq<char>, WeightTable)>,
    regime: Seq<char>,
    role: ModelRole,
) -> u32 {
    let table = match find_table(tables, regime, 0) {
        Some(t) => Some(t),
        None => find_table(tables, "base"@, 0),
    };
    match table {
        Some(t) => match find_weight(t, role, 0) {
            Some(w) => w,
            None => 10,
        },
        None => 10,
    }
}

/// The default weights of the "base" regime.
pub open spec fn base_weights() -> WeightTable {
    seq![
        (ModelRole::Reasoning, 10u32),
        (ModelRole::MarketStructure, 12u32),
        (ModelRole::SentimentNews, 9u32),
        (ModelRole::QuantPredictive, 13u32),
        (ModelRole::Risk, 8u32),
    ]
}

/// The default weights of the "volatile" regime.
pub open spec fn volatile_weights() -> WeightTable {
    seq![
        (ModelRole::Reasoning, 9u32),
        (ModelRole::MarketStructure, 11u32),
        (ModelRole::SentimentNews, 13u32),
        (ModelRole::QuantPredictive, 10u32),
        (ModelRole::Risk, 11u32),
    ]
}

/// The default tables: "base" and "volatile".
pub open spec fn default_tables() -> Seq<(Seq<char>, WeightTable)> {
    seq![("base"@, base_weights()), ("volatile"@, volatile_weights())]
}

/// The default weights, in tenths: base weighs quant 1.3, market structure
/// 1.2, reasoning 1.0, sentiment 0.9 and risk 0.8; volatile weighs sentiment
/// 1.3, market structure and risk 1.1, quant 1.0 and reasoning 0.9.
pub proof fn lemma_default_weight_values()
    ensures
        weight_tenths(default_tables(), "base"@, ModelRole::Reasoning) == 10,
        weight_tenths(default_tables(), "base"@, ModelRole::MarketStructure) == 12,
        weight_tenths(default_tables(), "base"@, ModelRole::SentimentNews) == 9,
        weight_tenths(default_tables(), "base"@, ModelRole::QuantPredictive) == 13,
        weight_tenths(default_tables(), "base"@, ModelRole::Risk) == 8,
        weight_tenths(default_tables(), "volatile"@, ModelRole::Reasoning) == 9,
        weight_tenths(default_tables(), "volatile"@, ModelRole::MarketStructure) == 11,
        weight_tenths(default_tables(), "volatile"@, ModelRole::SentimentNews) == 13,
        weight_tenths(default_tables(), "volatile"@, ModelRole::QuantPredictive) == 10,
        weight_tenths(default_tables(), "volatile"@, ModelRole::Risk) == 11,
{
    reveal_strlit("base");
    reveal_strlit("volatile");
    let t = default_tables();
    assert("base"@ != "volatile"@) by {
        assert("base"@.len() != "volatile"@.len());
    }
    assert(find_table(t, "base"@, 0) == Some(base_weights()));
    assert(find_table(t, "volatile"@, 1) == Some(volatile_weights()));
    assert(find_table(t, "volatile"@, 0) == Some(volatile_weights()));
    reveal_with_fuel(find_weight, 6);
}

/// Each regime is named once, and each role is weighed at most once in each
/// table (the shape of a map from regime to a map from role to weight).
pub open spec fn tables_well_formed(tables: Seq<(Seq<char>, WeightTable)>) -> bool {
    &&& forall|i: int, j: int|
        0 <= i < j < tables.len() ==> (#[trigger] tables[i]).0 != (#[trigger] tables[j]).0
    &&& forall|k: int, i: int, j: int|
        0 <= k < tables.len() && 0 <= i < j < tables[k].1.len() ==> (#[trigger] tables[k].1[i]).0
            != (#[trigger] tables[k].1[j]).0
}

/// With the default tables, a regime other than "volatile" is weighed as
/// "base", and a role missing from the tables (the fusion role) weighs 1.0.
pub proof fn lemma_default_weights_fall_back_to_base(regime: Seq<char>, role: ModelRole)
    ensures
        regime != "volatile"@ ==> weight_tenths(default_tables(), regime, role) == weight_tenths(
            default_tables(),
            "base"@,
            role,
        ),
        weight_tenths(default_tables(), regime, ModelRole::Fusion) == 10,
{
    reveal_strlit("base");
    reveal_strlit("volatile");
    let t = default_tables();
    assert("base"@ != "volatile"@) by {
        assert("base"@.len() != "volatile"@.len());
    }
    assert(find_table(t, "base"@, 0) == Some(base_weights()));
    assert(find_table(t, "volatile"@, 1) == Some(volatile_weights()));
    assert(find_table(t, "volatile"@, 0) == Some(volatile_weights()));
    if regime != "volatile"@ && regime != "base"@ {
        assert(find_table(t, regime, 2) == None::<WeightTable>);
        assert(find_table(t, regime, 1) == None::<WeightTable>);
        assert(find_table(t, regime, 0) == None::<WeightTable>);
    }
    reveal_with_fuel(find_weight, 6);
}

fn weight_pairs(pairs: &[(ModelRole, u32)]) -> (v: Vec<(ModelRole, u32)>)
    ensures
        v@ == pairs@,
{
    let mut v: Vec<(ModelRole, u32)> = Vec::new();
    let mut i: usize = 0;
    while i < pairs.len()
        invariant
            i <= pairs.len(),
            v@ == pairs@.take(i as int),
        decreases pairs.len() - i,
    {
        v.push(pairs[i]);
        i = i + 1;
        assert(v@ =~= pairs@.take(i as int));
    }
    assert(pairs@.take(pairs.len() as int) =~= pairs@);
    v
}

impl FusionEngine {
    /// The weight tables, by regime name.
    pub closed spec fn tables(&self) -> Seq<(Seq<char>, WeightTable)> {
        self.regime_weights@.map_values(|t: RegimeWeights| (t.regime@, t.weights@))
    }

    fn find_regime(&self, name: &String) -> (found: Option<usize>)
        ensures
            match found {
                Some(k) => k < self.regime_weights@.len() && find_table(self.tables(), name@, 0)
                    == Some(self.tables()[k as int].1),
                None => find_table(self.tables(), name@, 0) is None,
            },
    {
        let ghost tables = self.tables();
        let mut i: usize = 0;
        while i < self.regime_weights.len()
            invariant
                i <= self.regime_weights.len(),
                tables == self.tables(),
                tables.len() == self.regime_weights@.len(),
                find_table(tables, name@, 0) == find_table(tables, name@, i as int),
            decreases self.regime_weights.len() - i,
        {
            assert(tables[i as int].0 == self.regime_weights@[i as int].regime@);
            if self.regime_weights[i].regime == *name {
                return Some(i);
            }
            i = i + 1;
        }
        None
    }

    /// The weight, in tenths, of a model of `role` in `regime`.
    pub fn weight_for(&self, regime: &str, role: ModelRole) -> (w: u32)
        ensures
            w == weight_tenths(self.tables(), regime@, role),
    {
        let name = String::from_str(regime);
        let mut found = self.find_regime(&name);
        if found.is_none() {
            let base = String::from_str("base");
            found = self.find_regime(&base);
        }
        match found {
            None => 10,
            Some(k) => {
                let table = &self.regime_weights[k].weights;
                let ghost t = table@;
                assert(t == self.tables()[k as int].1);
                let ghost expected = weight_tenths(self.tables(), regime@, role);
                assert(expected == match find_weight(t, role, 0) {
                    Some(w) => w,
                    None => 10u32,
                });
                let mut m: usize = 0;
                while m < table.len()
                    invariant
                        m <= table.len(),
                        t == table@,
                        expected == weight_tenths(self.tables(), regime@, role),
                        expected == match find_weight(t, role, 0) {
                            Some(w) => w,
                            None => 10u32,
                        },
                        find_weight(t, role, 0) == find_weight(t, role, m as int),
                    decreases table.len() - m,
                {
                    if table[m].0 == role {
                        assert(find_weight(t, role, m as int) == Some(t[m as int].1));
                        return table[m].1;
                    }
                    m = m + 1;
                }
                10
            },
        }
    }
}

impl Default for FusionEngine {
    fn default() -> (engine: Self)
        ensures
            engine.tables() == default_tables(),
            tables_well_formed(engine.tables()),
    {
        let base = weight_pairs(
            &[
                (ModelRole::Reasoning, 10u32),
                (ModelRole::MarketStructure, 12u32),
                (ModelRole::SentimentNews, 9u32),
                (ModelRole::QuantPredictive, 13u32),
                (ModelRole::Risk, 8u32),
            ],
        );
        let volatile = weight_pairs(
            &[
                (ModelRole::Reasoning, 9u32),
                (ModelRole::MarketStructure, 11u32),
                (ModelRole::SentimentNews, 13u32),
                (ModelRole::QuantPredictive, 10u32),
                (ModelRole::Risk, 11u32),
            ],
        );
        assert(base@ =~= base_weights());
        assert(volatile@ =~= volatile_weights());
        let mut regime_weights: Vec<RegimeWeights> = Vec::new();
        regime_weights.push(RegimeWeights { regime: String::from_str("base"), weights: base });
        regime_weights.push(
            RegimeWeights { regime: String::from_str("volatile"), weights: volatile },
        );
        let engine = FusionEngine { regime_weights };
        assert(engine.tables() =~= default_tables());
        proof {
            reveal_strlit("base");
            reveal_strlit("volatile");
            assert("base"@ != "volatile"@) by {
                assert("base"@.len() != "volatile"@.len());
            }
            let t = default_tables();
            assert forall|k: int, i: int, j: int|
                0 <= k < t.len() && 0 <= i < j < t[k].1.len() implies (#[trigger] t[k].1[i]).0
                != (#[trigger] t[k].1[j]).0 by {
                if k == 0 {
                    assert(t[k].1 == base_weights());
                } else {
                    assert(t[k].1 == volatile_weights());
                }
            }
        }
        engine
    }
}

} // verus!

verus! {

/// What the fusion conclusion reads of one model output.
#[derive(Debug, Clone)]
pub struct OutputDigest {
    pub model_name: String,
    pub direction: Direction,
    pub abstain: bool,
    pub risk_notes: Vec<String>,
    /// How many evidence items the output carries.
    pub evidence_count: usize,
    pub source_refs: Vec<String>,
}

/// How the weighted ensemble measures compare with the fusion thresholds.
/// The weighted averages are taken over the outputs that did not abstain,
/// with weights from `FusionEngine::weight_for`.
#[derive(Debug, Clone, Copy)]
pub struct FusionGauges {
    /// The weighted directional score is above 0.2.
    pub score_above_long_threshold: bool,
    /// The weighted directional score is below -0.2.
    pub score_below_short_threshold: bool,
    /// The weighted confidence is above 0.78.
    pub confidence_above_overconfidence: bool,
    /// The weighted disagreement is above 0.35.
    pub disagreement_above_overconfidence: bool,
    /// The weighted confidence is below 0.55.
    pub confidence_below_floor: bool,
    /// The weighted disagreement is above 0.60.
    pub disagreement_above_ceiling: bool,
}

/// A model that dissents from the consensus, and why.
#[derive(Debug, Clone)]
pub struct DissentNote {
    /// Position of the output among the fused outputs.
    pub output: usize,
    pub reason: String,
}

/// The discrete conclusions of a fusion.
#[derive(Debug, Clone)]
pub struct FusionConclusion {
    pub direction: Direction,
    pub overconfidence_flag: bool,
    pub abstain: bool,
    pub recommended_action: ActionKind,
    pub thesis: String,
    /// (output position, evidence position) of the supporting evidence kept.
    pub evidence_positions: Vec<(usize, usize)>,
    pub source_refs: Vec<String>,
    pub dissenters: Vec<DissentNote>,
    pub why_not: Vec<String>,
}

/// Most supporting evidence items a fused thesis keeps.
pub open spec fn evidence_limit() -> nat {
    8
}

/// Some output did not abstain.
pub open spec fn has_active(outputs: Seq<OutputDigest>) -> bool {
    exists|i: int| 0 <= i < outputs.len() && !outputs[i].abstain
}

/// The consensus direction from the weighted directional score.
pub open spec fn consensus_of(g: FusionGauges) -> Direction {
    if g.score_above_long_threshold {
        Direction::Long
    } else if g.score_below_short_threshold {
        Direction::Short
    } else {
        Direction::Neutral
    }
}

/// High confidence together with elevated disagreement.
pub open spec fn overconfident(g: FusionGauges) -> bool {
    g.confidence_above_overconfidence && g.disagreement_above_overconfidence
}

/// The ensemble abstains without active outputs, on low confidence, on high
/// disagreement, or when overconfident.
pub open spec fn fusion_abstains(outputs: Seq<OutputDigest>, g: FusionGauges) -> bool {
    ||| !has_active(outputs)
    ||| g.confidence_below_floor
    ||| g.disagreement_above_ceiling
    ||| overconfident(g)
}

/// The action the fused thesis recommends.
pub open spec fn fused_action(abstain: bool, direction: Direction) -> ActionKind {
    if abstain {
        ActionKind::Watch
    } else {
        match direction {
            Direction::Long => ActionKind::OpenLong,
            Direction::Short => ActionKind::OpenShort,
            Direction::Neutral => ActionKind::Hold,
        }
    }
}

/// The thesis text of a fusion.
pub open spec fn fused_thesis_text(
    abstain: bool,
    direction: Direction,
    market: Seq<char>,
    horizon: Seq<char>,
) -> Seq<char> {
    if abstain {
        "Abstain on "@ + market
            + " until model disagreement narrows or fresher evidence arrives"@
    } else {
        "Consensus leans "@ + direction_name(direction) + " on "@ + market + " over "@ + horizon
            + " with regime-aware weighted evidence"@
    }
}

/// All (output, evidence) positions of the first `n` outputs, in order.
pub open spec fn evidence_positions_upto(outputs: Seq<OutputDigest>, n: int) -> Seq<(usize, usize)>
    decreases n,
{
    if n <= 0 {
        Seq::empty()
    } else {
        evidence_positions_upto(outputs, n - 1) + Seq::new(
            outputs[n - 1].evidence_count as nat,
            |j: int| ((n - 1) as usize, j as usize),
        )
    }
}

/// At most the first `limit` items of `s`.
pub open spec fn first_n<T>(s: Seq<T>, limit: nat) -> Seq<T> {
    if s.len() <= limit {
        s
    } else {
        s.take(limit as int)
    }
}

/// Why a dissenting model disagrees: its first risk note, else a default.
pub open spec fn dissent_reason(risk_notes: Seq<String>) -> Seq<char> {
    if risk_notes.len() > 0 {
        risk_notes[0]@
    } else {
        "model diverged from consensus"@
    }
}

/// The dissent among the first `n` outputs: those that did not abstain and
/// lean away from the consensus.
pub open spec fn dissent_upto(outputs: Seq<OutputDigest>, consensus: Direction, n: int) -> Seq<
    (int, Seq<char>),
>
    decreases n,
{
    if n <= 0 {
        Seq::empty()
    } else {
        let prev = dissent_upto(outputs, consensus, n - 1);
        let o = outputs[n - 1];
        if !o.abstain && o.direction != consensus {
            prev.push((n - 1, dissent_reason(o.risk_notes@)))
        } else {
            prev
        }
    }
}

/// The abstention notes of the first `n` outputs.
pub open spec fn abstentions_upto(outputs: Seq<OutputDigest>, n: int) -> Seq<Seq<char>>
    decreases n,
{
    if n <= 0 {
        Seq::empty()
    } else {
        let prev = abstentions_upto(outputs, n - 1);
        if outputs[n - 1].abstain {
            prev.push(outputs[n - 1].model_name@ + " abstained due to low conviction"@)
        } else {
            prev
        }
    }
}

/// Why the ensemble did not act: one note per abstaining model, then a note
/// on overconfidence.
pub open spec fn why_not_notes(outputs: Seq<OutputDigest>, g: FusionGauges) -> Seq<Seq<char>> {
    abstentions_upto(outputs, outputs.len() as int) + if overconfident(g) {
        seq!["ensemble confidence is high while disagreement remains elevated"@]
    } else {
        Seq::empty()
    }
}

/// `t` is cited by one of the outputs.
pub open spec fn cited(outputs: Seq<OutputDigest>, t: Seq<char>) -> bool {
    exists|i: int, j: int|
        0 <= i < outputs.len() && 0 <= j < outputs[i].source_refs@.len()
            && #[trigger] outputs[i].source_refs@[j]@ == t
}

/// The texts are in strictly increasing order.
pub open spec fn strictly_sorted(s: Seq<String>) -> bool {
    forall|i: int, j: int| 0 <= i < j < s.len() ==> text_lt(#[trigger] s[i]@, #[trigger] s[j]@)
}

} // verus!

verus! {

fn any_active(outputs: &Vec<OutputDigest>) -> (r: bool)
    ensures
        r == has_active(outputs@),
{
    let mut i: usize = 0;
    while i < outputs.len()
        invariant
            i <= outputs.len(),
            forall|k: int| 0 <= k < i ==> outputs@[k].abstain,
        decreases outputs.len() - i,
    {
        if !outputs[i].abstain {
            return true;
        }
        i = i + 1;
    }
    false
}

fn collect_evidence_positions(outputs: &Vec<OutputDigest>) -> (positions: Vec<(usize, usize)>)
    ensures
        positions@ == first_n(
            evidence_positions_upto(outputs@, outputs@.len() as int),
            evidence_limit(),
        ),
{
    let mut positions: Vec<(usize, usize)> = Vec::new();
    let mut i: usize = 0;
    while i < outputs.len()
        invariant
            i <= outputs.len(),
            positions@ == evidence_positions_upto(outputs@, i as int),
        decreases outputs.len() - i,
    {
        let count = outputs[i].evidence_count;
        let ghost before = positions@;
        let mut j: usize = 0;
        while j < count
            invariant
                j <= count,
                i < outputs.len(),
                count == outputs@[i as int].evidence_count,
                positions@ == before + Seq::new(j as nat, |m: int| (i, m as usize)),
            decreases count - j,
        {
            positions.push((i, j));
            j = j + 1;
            assert(positions@ =~= before + Seq::new(j as nat, |m: int| (i, m as usize)));
        }
        assert(evidence_positions_upto(outputs@, i + 1) =~= before + Seq::new(
            count as nat,
            |m: int| (i, m as usize),
        ));
        i = i + 1;
    }
    positions.truncate(8);
    positions
}

fn collect_dissent(outputs: &Vec<OutputDigest>, consensus: Direction) -> (notes: Vec<DissentNote>)
    ensures
        notes@.len() == dissent_upto(outputs@, consensus, outputs@.len() as int).len(),
        forall|k: int|
            0 <= k < notes@.len() ==> (#[trigger] notes@[k]).output as int == dissent_upto(
                outputs@,
                consensus,
                outputs@.len() as int,
            )[k].0 && notes@[k].reason@ == dissent_upto(
                outputs@,
                consensus,
                outputs@.len() as int,
            )[k].1,
{
    let mut notes: Vec<DissentNote> = Vec::new();
    let mut i: usize = 0;
    while i < outputs.len()
        invariant
            i <= outputs.len(),
            notes@.len() == dissent_upto(outputs@, consensus, i as int).len(),
            forall|k: int|
                0 <= k < notes@.len() ==> (#[trigger] notes@[k]).output as int == dissent_upto(
                    outputs@,
                    consensus,
                    i as int,
                )[k].0 && notes@[k].reason@ == dissent_upto(outputs@, consensus, i as int)[k].1,
        decreases outputs.len() - i,
    {
        let o = &outputs[i];
        if !o.abstain && o.direction != consensus {
            let reason = if o.risk_notes.len() > 0 {
                o.risk_notes[0].clone()
            } else {
                String::from_str("model diverged from consensus")
            };
            notes.push(DissentNote { output: i, reason });
        }
        i = i + 1;
    }
    notes
}

fn collect_why_not(outputs: &Vec<OutputDigest>, gauges: &FusionGauges) -> (notes: Vec<String>)
    ensures
        notes.deep_view() == why_not_notes(outputs@, *gauges),
{
    let mut notes: Vec<String> = Vec::new();
    let mut i: usize = 0;
    while i < outputs.len()
        invariant
            i <= outputs.len(),
            notes.deep_view() == abstentions_upto(outputs@, i as int),
        decreases outputs.len() - i,
    {
        if outputs[i].abstain {
            let mut note = outputs[i].model_name.clone();
            push_text(&mut note, " abstained due to low conviction");
            notes.push(note);
            assert(notes.deep_view() =~= abstentions_upto(outputs@, i + 1));
        } else {
            assert(notes.deep_view() =~= abstentions_upto(outputs@, i + 1));
        }
        i = i + 1;
    }
    let ghost before = notes.deep_view();
    if gauges.confidence_above_overconfidence && gauges.disagreement_above_overconfidence {
        notes.push(
            String::from_str("ensemble confidence is high while disagreement remains elevated"),
        );
    }
    assert(notes.deep_view() =~= why_not_notes(outputs@, *gauges));
    notes
}

/// The thesis text of a fusion.
pub fn fused_thesis(abstain: bool, direction: Direction, market: &str, horizon: &str) -> (text:
    String)
    ensures
        text@ == fused_thesis_text(abstain, direction, market@, horizon@),
{
    if abstain {
        let mut text = String::from_str("Abstain on ");
        push_text(&mut text, market);
        push_text(&mut text, " until model disagreement narrows or fresher evidence arrives");
        text
    } else {
        let mut text = String::from_str("Consensus leans ");
        let label = direction_label(direction);
        push_text(&mut text, label.as_str());
        push_text(&mut text, " on ");
        push_text(&mut text, market);
        push_text(&mut text, " over ");
        push_text(&mut text, horizon);
        push_text(&mut text, " with regime-aware weighted evidence");
        text
    }
}

} // verus!

verus! {

/// The character sequences are in strictly increasing order.
pub open spec fn keys_sorted(keys: Seq<Vec<char>>) -> bool {
    forall|i: int, j: int| 0 <= i < j < keys.len() ==> text_lt(#[trigger] keys[i]@, #[trigger] keys[j]@)
}

/// `t` is one of the keys.
pub open spec fn has_key(keys: Seq<Vec<char>>, t: Seq<char>) -> bool {
    exists|k: int| 0 <= k < keys.len() && #[trigger] keys[k]@ == t
}

fn insert_key(keys: &mut Vec<Vec<char>>, key: Vec<char>)
    requires
        keys_sorted(old(keys)@),
    ensures
        keys_sorted(final(keys)@),
        forall|t: Seq<char>| has_key(final(keys)@, t) <==> (has_key(old(keys)@, t) || t == key@),
{
    let mut pos: usize = 0;
    loop
        invariant
            pos <= keys.len(),
            keys@ == old(keys)@,
            forall|k: int| 0 <= k < pos ==> text_lt(#[trigger] keys@[k]@, key@),
        ensures
            pos <= keys.len(),
            keys@ == old(keys)@,
            forall|k: int| 0 <= k < pos ==> text_lt(#[trigger] keys@[k]@, key@),
            pos < keys.len() ==> !text_lt(keys@[pos as int]@, key@),
        decreases keys.len() - pos,
    {
        if pos == keys.len() {
            break;
        }
        if !chars_lt(&keys[pos], &key) {
            break;
        }
        pos = pos + 1;
    }
    let ghost old_keys = keys@;
    if pos < keys.len() && !chars_lt(&key, &keys[pos]) {
        proof {
            if keys@[pos as int]@ != key@ {
                lemma_text_lt_total(keys@[pos as int]@, key@);
            }
            assert forall|t: Seq<char>|
                has_key(keys@, t) <==> (has_key(old(keys)@, t) || t == key@) by {
                if t == key@ {
                    assert(keys@[pos as int]@ == t);
                }
            }
        }
        return;
    }
    proof {
        if pos < keys.len() {
            assert(text_lt(key@, old_keys[pos as int]@));
        }
    }
    keys.insert(pos, key);
    proof {
        let nk = keys@;
        assert(nk[pos as int]@ == key@);
        assert forall|i: int, j: int| 0 <= i < j < nk.len() implies text_lt(
            #[trigger] nk[i]@,
            #[trigger] nk[j]@,
        ) by {
            if j < pos {
                assert(nk[i] == old_keys[i] && nk[j] == old_keys[j]);
            } else if j == pos {
                assert(nk[i] == old_keys[i]);
            } else if i < pos {
                assert(nk[i] == old_keys[i] && nk[j] == old_keys[j - 1]);
                assert(text_lt(old_keys[i]@, old_keys[j - 1]@));
            } else if i == pos {
                assert(nk[j] == old_keys[j - 1]);
                if j - 1 > pos {
                    assert(text_lt(old_keys[pos as int]@, old_keys[j - 1]@));
                    lemma_text_lt_transitive(key@, old_keys[pos as int]@, old_keys[j - 1]@);
                }
            } else {
                assert(nk[i] == old_keys[i - 1] && nk[j] == old_keys[j - 1]);
                assert(text_lt(old_keys[i - 1]@, old_keys[j - 1]@));
            }
        }
        assert forall|t: Seq<char>|
            has_key(nk, t) <==> (has_key(old_keys, t) || t == key@) by {
            if has_key(nk, t) {
                let k = choose|k: int| 0 <= k < nk.len() && #[trigger] nk[k]@ == t;
                if k < pos {
                    assert(old_keys[k]@ == t);
                } else if k > pos {
                    assert(old_keys[k - 1]@ == t);
                }
            }
            if has_key(old_keys, t) {
                let k = choose|k: int| 0 <= k < old_keys.len() && #[trigger] old_keys[k]@ == t;
                if k < pos {
                    assert(nk[k]@ == t);
                } else {
                    assert(nk[k + 1]@ == t);
                }
            }
            if t == key@ {
                assert(nk[pos as int]@ == t);
            }
        }
    }
}

} // verus!

verus! {

/// `t` is cited by an output before position `i`, or by output `i` before
/// its reference `j`.
pub open spec fn cited_before(outputs: Seq<OutputDigest>, i: int, j: int, t: Seq<char>) -> bool {
    exists|a: int, b: int|
        0 <= a < outputs.len() && 0 <= b < outputs[a].source_refs@.len() && (a < i || (a == i
            && b < j)) && #[trigger] outputs[a].source_refs@[b]@ == t
}

/// The sources cited by the outputs, each once, in increasing order.
pub fn merge_source_refs(outputs: &Vec<OutputDigest>) -> (refs: Vec<String>)
    ensures
        strictly_sorted(refs@),
        forall|t: Seq<char>|
            (exists|k: int| 0 <= k < refs@.len() && #[trigger] refs@[k]@ == t) <==> cited(
                outputs@,
                t,
            ),
{
    let mut keys: Vec<Vec<char>> = Vec::new();
    let mut i: usize = 0;
    while i < outputs.len()
        invariant
            i <= outputs.len(),
            keys_sorted(keys@),
            forall|t: Seq<char>| has_key(keys@, t) <==> cited_before(outputs@, i as int, 0, t),
        decreases outputs.len() - i,
    {
        let refs = &outputs[i].source_refs;
        let mut j: usize = 0;
        while j < refs.len()
            invariant
                i < outputs.len(),
                j <= refs.len(),
                refs@ == outputs@[i as int].source_refs@,
                keys_sorted(keys@),
                forall|t: Seq<char>|
                    has_key(keys@, t) <==> cited_before(outputs@, i as int, j as int, t),
            decreases refs.len() - j,
        {
            let key = chars_of(refs[j].as_str());
            let ghost before = keys@;
            insert_key(&mut keys, key);
            proof {
                assert forall|t: Seq<char>|
                    has_key(keys@, t) <==> cited_before(outputs@, i as int, j + 1, t) by {
                    if cited_before(outputs@, i as int, j + 1, t) {
                        let (a, b) = choose|a: int, b: int|
                            0 <= a < outputs@.len() && 0 <= b < outputs@[a].source_refs@.len()
                                && (a < i || (a == i && b < j + 1))
                                && #[trigger] outputs@[a].source_refs@[b]@ == t;
                        if !(a == i && b == j) {
                            assert(cited_before(outputs@, i as int, j as int, t));
                        }
                    }
                    if has_key(before, t) {
                        assert(cited_before(outputs@, i as int, j as int, t));
                        let (a, b) = choose|a: int, b: int|
                            0 <= a < outputs@.len() && 0 <= b < outputs@[a].source_refs@.len()
                                && (a < i || (a == i && b < j))
                                && #[trigger] outputs@[a].source_refs@[b]@ == t;
                        assert(outputs@[a].source_refs@[b]@ == t);
                    }
                    if t == refs@[j as int]@ {
                        assert(outputs@[i as int].source_refs@[j as int]@ == t);
                    }
                }
            }
            j = j + 1;
        }
        proof {
            assert forall|t: Seq<char>|
                cited_before(outputs@, i as int, j as int, t) <==> cited_before(
                    outputs@,
                    i + 1,
                    0,
                    t,
                ) by {
                if cited_before(outputs@, i + 1, 0, t) {
                    let (a, b) = choose|a: int, b: int|
                        0 <= a < outputs@.len() && 0 <= b < outputs@[a].source_refs@.len() && (a
                            < i + 1 || (a == i + 1 && b < 0))
                            && #[trigger] outputs@[a].source_refs@[b]@ == t;
                    assert(outputs@[a].source_refs@[b]@ == t);
                }
                if cited_before(outputs@, i as int, j as int, t) {
                    let (a, b) = choose|a: int, b: int|
                        0 <= a < outputs@.len() && 0 <= b < outputs@[a].source_refs@.len() && (a
                            < i || (a == i && b < j))
                            && #[trigger] outputs@[a].source_refs@[b]@ == t;
                    assert(outputs@[a].source_refs@[b]@ == t);
                }
            }
        }
        i = i + 1;
    }
    proof {
        assert forall|t: Seq<char>| cited_before(outputs@, i as int, 0, t) <==> cited(outputs@, t) by {
            if cited(outputs@, t) {
                let (a, b) = choose|a: int, b: int|
                    0 <= a < outputs@.len() && 0 <= b < outputs@[a].source_refs@.len()
                        && #[trigger] outputs@[a].source_refs@[b]@ == t;
                assert(outputs@[a].source_refs@[b]@ == t);
            }
            if cited_before(outputs@, i as int, 0, t) {
                let (a, b) = choose|a: int, b: int|
                    0 <= a < outputs@.len() && 0 <= b < outputs@[a].source_refs@.len() && (a < i
                        || (a == i && b < 0)) && #[trigger] outputs@[a].source_refs@[b]@ == t;
                assert(outputs@[a].source_refs@[b]@ == t);
            }
        }
    }
    let mut refs: Vec<String> = Vec::new();
    let mut k: usize = 0;
    while k < keys.len()
        invariant
            k <= keys.len(),
            refs@.len() == k,
            forall|m: int| 0 <= m < k ==> #[trigger] refs@[m]@ == keys@[m]@,
        decreases keys.len() - k,
    {
        refs.push(string_from_chars(&keys[k]));
        k = k + 1;
    }
    proof {
        assert forall|a: int, b: int| 0 <= a < b < refs@.len() implies text_lt(
            #[trigger] refs@[a]@,
            #[trigger] refs@[b]@,
        ) by {
            assert(refs@[a]@ == keys@[a]@ && refs@[b]@ == keys@[b]@);
        }
        assert forall|t: Seq<char>|
            (exists|m: int| 0 <= m < refs@.len() && #[trigger] refs@[m]@ == t) <==> has_key(
                keys@,
                t,
            ) by {
            if has_key(keys@, t) {
                let m = choose|m: int| 0 <= m < keys@.len() && #[trigger] keys@[m]@ == t;
                assert(refs@[m]@ == t);
            }
            if exists|m: int| 0 <= m < refs@.len() && #[trigger] refs@[m]@ == t {
                let m = choose|m: int| 0 <= m < refs@.len() && #[trigger] refs@[m]@ == t;
                assert(keys@[m]@ == t);
            }
        }
        assert forall|t: Seq<char>|
            (exists|m: int| 0 <= m < refs@.len() && #[trigger] refs@[m]@ == t) <==> cited(
                outputs@,
                t,
            ) by {
            assert(has_key(keys@, t) <==> cited_before(outputs@, outputs@.len() as int, 0, t));
        }
    }
    refs
}

} // verus!

verus! {

/// Draws the discrete conclusions of fusing `outputs` for `request`: the
/// consensus direction, the overconfidence flag, abstention, the action, the
/// thesis text, the evidence kept, the cited sources, the dissent, and why
/// the ensemble did not act.
pub fn conclude_fusion(
    request: &AnalysisRequest,
    outputs: &Vec<OutputDigest>,
    gauges: &FusionGauges,
) -> (c: FusionConclusion)
    ensures
        c.direction == consensus_of(*gauges),
        c.overconfidence_flag == overconfident(*gauges),
        c.abstain == fusion_abstains(outputs@, *gauges),
        c.recommended_action == fused_action(c.abstain, c.direction),
        c.thesis@ == fused_thesis_text(
            c.abstain,
            c.direction,
            request.market@,
            request.time_horizon@,
        ),
        c.evidence_positions@ == first_n(
            evidence_positions_upto(outputs@, outputs@.len() as int),
            evidence_limit(),
        ),
        strictly_sorted(c.source_refs@),
        forall|t: Seq<char>|
            (exists|k: int| 0 <= k < c.source_refs@.len() && #[trigger] c.source_refs@[k]@ == t)
                <==> cited(outputs@, t),
        c.dissenters@.len() == dissent_upto(outputs@, c.direction, outputs@.len() as int).len(),
        forall|k: int|
            0 <= k < c.dissenters@.len() ==> (#[trigger] c.dissenters@[k]).output as int
                == dissent_upto(outputs@, c.direction, outputs@.len() as int)[k].0
                && c.dissenters@[k].reason@ == dissent_upto(
                outputs@,
                c.direction,
                outputs@.len() as int,
            )[k].1,
        c.why_not.deep_view() == why_not_notes(outputs@, *gauges),
        gauges.score_above_long_threshold ==> c.direction == Direction::Long,
        !gauges.score_above_long_threshold && gauges.score_below_short_threshold ==> c.direction
            == Direction::Short,
        !gauges.score_above_long_threshold && !gauges.score_below_short_threshold ==> c.direction
            == Direction::Neutral,
        c.overconfidence_flag == (gauges.confidence_above_overconfidence
            && gauges.disagreement_above_overconfidence),
        c.abstain == ((forall|i: int| 0 <= i < outputs@.len() ==> #[trigger] outputs@[i].abstain)
            || gauges.confidence_below_floor || gauges.disagreement_above_ceiling
            || c.overconfidence_flag),
        c.abstain ==> c.recommended_action == ActionKind::Watch,
        !c.abstain && c.direction == Direction::Long ==> c.recommended_action
            == ActionKind::OpenLong,
        !c.abstain && c.direction == Direction::Short ==> c.recommended_action
            == ActionKind::OpenShort,
        !c.abstain && c.direction == Direction::Neutral ==> c.recommended_action
            == ActionKind::Hold,
        c.abstain ==> c.thesis@ == "Abstain on "@ + request.market@
            + " until model disagreement narrows or fresher evidence arrives"@,
        !c.abstain ==> c.thesis@ == "Consensus leans "@ + direction_name(c.direction) + " on "@
            + request.market@ + " over "@ + request.time_horizon@
            + " with regime-aware weighted evidence"@,
        c.evidence_positions@.len() <= 8,
        forall|k: int|
            0 <= k < c.evidence_positions@.len() ==> ((#[trigger] c.evidence_positions@[k]).0 as int)
                < outputs@.len() && (c.evidence_positions@[k].1 as int) < outputs@[c.evidence_positions@[k].0 as int].evidence_count,
        forall|k: int|
            0 <= k < c.dissenters@.len() ==> {
                let i = (#[trigger] c.dissenters@[k]).output as int;
                &&& 0 <= i < outputs@.len()
                &&& !outputs@[i].abstain
                &&& outputs@[i].direction != c.direction
                &&& c.dissenters@[k].reason@ == (if outputs@[i].risk_notes@.len() > 0 {
                    outputs@[i].risk_notes@[0]@
                } else {
                    "model diverged from consensus"@
                })
            },
        forall|i: int|
            0 <= i < outputs@.len() && (#[trigger] outputs@[i]).abstain
                ==> c.why_not.deep_view().contains(
                outputs@[i].model_name@ + " abstained due to low conviction"@,
            ),
        c.overconfidence_flag ==> c.why_not@.len() > 0 && c.why_not@.last()@
            == "ensemble confidence is high while disagreement remains elevated"@,
        !c.overconfidence_flag && (forall|i: int|
            0 <= i < outputs@.len() ==> !(#[trigger] outputs@[i]).abstain) ==> c.why_not@.len()
            == 0,
        forall|i: int|
            0 <= i < outputs@.len() && !(#[trigger] outputs@[i]).abstain && outputs@[i].direction
                != c.direction ==> exists|k: int|
                0 <= k < c.dissenters@.len() && c.dissenters@[k].output as int == i,
{
    proof {
        assert(outputs@.len() == outputs.len());
        lemma_evidence_bounded(outputs@);
    }
    let direction = if gauges.score_above_long_threshold {
        Direction::Long
    } else if gauges.score_below_short_threshold {
        Direction::Short
    } else {
        Direction::Neutral
    };
    let overconfidence_flag = gauges.confidence_above_overconfidence
        && gauges.disagreement_above_overconfidence;
    let abstain = !any_active(outputs) || gauges.confidence_below_floor
        || gauges.disagreement_above_ceiling || overconfidence_flag;
    let recommended_action = if abstain {
        ActionKind::Watch
    } else {
        match direction {
            Direction::Long => ActionKind::OpenLong,
            Direction::Short => ActionKind::OpenShort,
            Direction::Neutral => ActionKind::Hold,
        }
    };
    let thesis = fused_thesis(
        abstain,
        direction,
        request.market.as_str(),
        request.time_horizon.as_str(),
    );
    let dissenters = collect_dissent(outputs, direction);
    proof {
        lemma_dissent_is_exact(outputs@, direction, outputs@.len() as int);
        let d = dissent_upto(outputs@, direction, outputs@.len() as int);
        assert forall|i: int|
            0 <= i < outputs@.len() && !(#[trigger] outputs@[i]).abstain && outputs@[i].direction
                != direction implies exists|k: int|
            0 <= k < dissenters@.len() && dissenters@[k].output as int == i by {
            let k = choose|k: int| 0 <= k < d.len() && d[k].0 == i;
            assert(dissenters@[k].output as int == d[k].0);
        }
        assert forall|k: int| 0 <= k < dissenters@.len() implies {
            let i = (#[trigger] dissenters@[k]).output as int;
            &&& 0 <= i < outputs@.len()
            &&& !outputs@[i].abstain
            &&& outputs@[i].direction != direction
        } by {
            assert(dissenters@[k].output as int == d[k].0);
        }
    }
    let why_not = collect_why_not(outputs, gauges);
    proof {
        if forall|i: int| 0 <= i < outputs@.len() ==> !(#[trigger] outputs@[i]).abstain {
            lemma_no_abstentions(outputs@, outputs@.len() as int);
        }
        lemma_abstention_notes_exact(outputs@, outputs@.len() as int);
        let notes = abstentions_upto(outputs@, outputs@.len() as int);
        assert forall|i: int|
            0 <= i < outputs@.len() && (#[trigger] outputs@[i]).abstain
                implies why_not.deep_view().contains(
            outputs@[i].model_name@ + " abstained due to low conviction"@,
        ) by {
            let k = choose|k: int|
                0 <= k < notes.len() && notes[k] == outputs@[i].model_name@
                    + " abstained due to low conviction"@;
            assert(why_not.deep_view()[k] == notes[k]);
        }
        assert(why_not@.len() == why_not.deep_view().len());
        if overconfidence_flag {
            assert(why_not.deep_view().last() == why_not@.last()@);
        }
    }
    FusionConclusion {
        direction,
        overconfidence_flag,
        abstain,
        recommended_action,
        thesis,
        evidence_positions: collect_evidence_positions(outputs),
        source_refs: merge_source_refs(outputs),
        dissenters,
        why_not,
    }
}

/// The note that an abstaining model leaves in the why-not list.
pub open spec fn abstention_note(name: Seq<char>) -> Seq<char> {
    name + " abstained due to low conviction"@
}

/// Whether `note` is the abstention note of one of the first `n` outputs that
/// abstained.
pub open spec fn notes_abstention_among(outputs: Seq<OutputDigest>, n: int, note: Seq<char>) -> bool {
    exists|i: int|
        #![trigger outputs[i]]
        0 <= i < n && outputs[i].abstain && note == abstention_note(outputs[i].model_name@)
}

/// The abstention notes name exactly the abstaining outputs: each note is
/// "<model> abstained due to low conviction" for an abstaining output, and
/// each abstaining output has its note.
pub proof fn lemma_abstention_notes_exact(outputs: Seq<OutputDigest>, n: int)
    requires
        0 <= n <= outputs.len(),
    ensures
        forall|k: int|
            0 <= k < abstentions_upto(outputs, n).len() ==> notes_abstention_among(
                outputs,
                n,
                #[trigger] abstentions_upto(outputs, n)[k],
            ),
        forall|i: int|
            0 <= i < n && (#[trigger] outputs[i]).abstain ==> abstentions_upto(outputs, n).contains(
                abstention_note(outputs[i].model_name@),
            ),
    decreases n,
{
    if n > 0 {
        lemma_abstention_notes_exact(outputs, n - 1);
        let prev = abstentions_upto(outputs, n - 1);
        let cur = abstentions_upto(outputs, n);
        assert forall|k: int| 0 <= k < cur.len() implies notes_abstention_among(
            outputs,
            n,
            #[trigger] cur[k],
        ) by {
            if k < prev.len() {
                assert(cur[k] == prev[k]);
                assert(notes_abstention_among(outputs, n - 1, prev[k]));
                let i = choose|i: int|
                    #![trigger outputs[i]]
                    0 <= i < n - 1 && outputs[i].abstain && prev[k] == abstention_note(
                        outputs[i].model_name@,
                    );
                assert(0 <= i < n && outputs[i].abstain && cur[k] == abstention_note(
                    outputs[i].model_name@,
                ));
            } else {
                assert(outputs[n - 1].abstain);
                assert(cur[k] == abstention_note(outputs[n - 1].model_name@));
            }
        }
        assert forall|i: int| 0 <= i < n && (#[trigger] outputs[i]).abstain implies cur.contains(
            abstention_note(outputs[i].model_name@),
        ) by {
            if i < n - 1 {
                let k = choose|k: int|
                    0 <= k < prev.len() && prev[k] == abstention_note(outputs[i].model_name@);
                assert(cur[k] == prev[k]);
            } else {
                assert(cur[prev.len() as int] == abstention_note(outputs[i].model_name@));
            }
        }
    }
}

/// Without abstaining outputs there are no abstention notes.
pub proof fn lemma_no_abstentions(outputs: Seq<OutputDigest>, n: int)
    requires
        0 <= n <= outputs.len(),
        forall|i: int| 0 <= i < outputs.len() ==> !(#[trigger] outputs[i]).abstain,
    ensures
        abstentions_upto(outputs, n).len() == 0,
    decreases n,
{
    if n > 0 {
        lemma_no_abstentions(outputs, n - 1);
    }
}

/// The consensus follows the score thresholds: long above the long
/// threshold, short below the short one (when not above the long one), and
/// neutral only when neither threshold is crossed.
pub proof fn lemma_consensus_follows_thresholds(g: FusionGauges)
    ensures
        g.score_above_long_threshold ==> consensus_of(g) == Direction::Long,
        !g.score_above_long_threshold && g.score_below_short_threshold ==> consensus_of(g)
            == Direction::Short,
        !g.score_above_long_threshold && !g.score_below_short_threshold ==> consensus_of(g)
            == Direction::Neutral,
        consensus_of(g) == Direction::Long ==> g.score_above_long_threshold,
        consensus_of(g) == Direction::Short ==> g.score_below_short_threshold,
{
}

/// An ensemble that acts opens a position in the consensus direction (holds
/// on a neutral consensus); one that abstains only watches.
pub proof fn lemma_action_follows_direction(direction: Direction)
    ensures
        fused_action(true, direction) == ActionKind::Watch,
        fused_action(false, Direction::Long) == ActionKind::OpenLong,
        fused_action(false, Direction::Short) == ActionKind::OpenShort,
        fused_action(false, Direction::Neutral) == ActionKind::Hold,
{
}

/// Models are advisory: an abstaining ensemble only watches, and an active
/// one acts in the consensus direction.
pub proof fn lemma_abstention_means_watch(outputs: Seq<OutputDigest>, g: FusionGauges)
    ensures
        fusion_abstains(outputs, g) ==> fused_action(true, consensus_of(g)) == ActionKind::Watch,
        !has_active(outputs) ==> fusion_abstains(outputs, g),
        overconfident(g) ==> fusion_abstains(outputs, g),
        g.confidence_below_floor ==> fusion_abstains(outputs, g),
        g.disagreement_above_ceiling ==> fusion_abstains(outputs, g),
        !fusion_abstains(outputs, g) ==> fused_action(false, consensus_of(g)) == match consensus_of(
            g,
        ) {
            Direction::Long => ActionKind::OpenLong,
            Direction::Short => ActionKind::OpenShort,
            Direction::Neutral => ActionKind::Hold,
        },
{
}

/// The positions of the evidence of the first `n` outputs are valid, and
/// list each output's evidence in order.
pub proof fn lemma_evidence_positions_valid(outputs: Seq<OutputDigest>, n: int)
    requires
        0 <= n <= outputs.len(),
        outputs.len() <= usize::MAX,
    ensures
        forall|k: int|
            0 <= k < evidence_positions_upto(outputs, n).len() ==> {
                let p = #[trigger] evidence_positions_upto(outputs, n)[k];
                &&& (p.0 as int) < n
                &&& (p.1 as int) < outputs[p.0 as int].evidence_count
            },
    decreases n,
{
    if n > 0 {
        lemma_evidence_positions_valid(outputs, n - 1);
        let prev = evidence_positions_upto(outputs, n - 1);
        let cur = evidence_positions_upto(outputs, n);
        assert forall|k: int| 0 <= k < cur.len() implies {
            let p = #[trigger] cur[k];
            &&& (p.0 as int) < n
            &&& (p.1 as int) < outputs[p.0 as int].evidence_count
        } by {
            if k < prev.len() {
                assert(cur[k] == prev[k]);
            } else {
                assert(cur[k] == ((n - 1) as usize, (k - prev.len()) as usize));
            }
        }
    }
}

/// A fused thesis keeps at most eight evidence items, each a real item of a
/// real output.
pub proof fn lemma_evidence_bounded(outputs: Seq<OutputDigest>)
    requires
        outputs.len() <= usize::MAX,
    ensures
        first_n(evidence_positions_upto(outputs, outputs.len() as int), evidence_limit()).len()
            <= evidence_limit(),
        forall|k: int|
            0 <= k < first_n(
                evidence_positions_upto(outputs, outputs.len() as int),
                evidence_limit(),
            ).len() ==> {
                let p = #[trigger] first_n(
                    evidence_positions_upto(outputs, outputs.len() as int),
                    evidence_limit(),
                )[k];
                &&& (p.0 as int) < outputs.len()
                &&& (p.1 as int) < outputs[p.0 as int].evidence_count
            },
{
    lemma_evidence_positions_valid(outputs, outputs.len() as int);
    let all = evidence_positions_upto(outputs, outputs.len() as int);
    assert forall|k: int| 0 <= k < first_n(all, evidence_limit()).len() implies first_n(
        all,
        evidence_limit(),
    )[k] == all[k] by {}
}

/// The dissent lists exactly the outputs that did not abstain and lean away
/// from the consensus, in order, each once.
pub proof fn lemma_dissent_is_exact(outputs: Seq<OutputDigest>, consensus: Direction, n: int)
    requires
        0 <= n <= outputs.len(),
    ensures
        forall|k: int|
            0 <= k < dissent_upto(outputs, consensus, n).len() ==> {
                let d = #[trigger] dissent_upto(outputs, consensus, n)[k];
                &&& 0 <= d.0 < n
                &&& !outputs[d.0].abstain
                &&& outputs[d.0].direction != consensus
                &&& d.1 == dissent_reason(outputs[d.0].risk_notes@)
            },
        forall|a: int, b: int|
            0 <= a < b < dissent_upto(outputs, consensus, n).len() ==> (#[trigger] dissent_upto(
                outputs,
                consensus,
                n,
            )[a]).0 < (#[trigger] dissent_upto(outputs, consensus, n)[b]).0,
        forall|i: int|
            0 <= i < n && !(#[trigger] outputs[i]).abstain && outputs[i].direction != consensus
                ==> exists|k: int|
                0 <= k < dissent_upto(outputs, consensus, n).len() && dissent_upto(
                    outputs,
                    consensus,
                    n,
                )[k].0 == i,
    decreases n,
{
    if n > 0 {
        lemma_dissent_is_exact(outputs, consensus, n - 1);
        let prev = dissent_upto(outputs, consensus, n - 1);
        let cur = dissent_upto(outputs, consensus, n);
        assert forall|i: int|
            0 <= i < n && !(#[trigger] outputs[i]).abstain && outputs[i].direction
                != consensus implies exists|k: int|
            0 <= k < cur.len() && cur[k].0 == i by {
            if i < n - 1 {
                let k = choose|k: int| 0 <= k < prev.len() && prev[k].0 == i;
                assert(cur[k] == prev[k]);
            } else {
                assert(cur[prev.len() as int].0 == i);
            }
        }
        assert forall|k: int| 0 <= k < cur.len() implies {
            let d = #[trigger] cur[k];
            &&& 0 <= d.0 < n
            &&& !outputs[d.0].abstain
            &&& outputs[d.0].direction != consensus
            &&& d.1 == dissent_reason(outputs[d.0].risk_notes@)
        } by {
            if k < prev.len() {
                assert(cur[k] == prev[k]);
            }
        }
        assert forall|a: int, b: int| 0 <= a < b < cur.len() implies (#[trigger] cur[a]).0 < (
        #[trigger] cur[b]).0 by {
            if b < prev.len() {
                assert(cur[a] == prev[a] && cur[b] == prev[b]);
            } else {
                assert(cur[a] == prev[a]);
            }
        }
    }
}

/// Two strictly increasing lists with the same texts are the same list: the
/// cited sources of a fused thesis do not depend on the order in which the
/// models cite them.
pub proof fn lemma_sorted_refs_are_canonical(a: Seq<Seq<char>>, b: Seq<Seq<char>>)
    requires
        forall|i: int, j: int| 0 <= i < j < a.len() ==> text_lt(#[trigger] a[i], #[trigger] a[j]),
        forall|i: int, j: int| 0 <= i < j < b.len() ==> text_lt(#[trigger] b[i], #[trigger] b[j]),
        forall|t: Seq<char>| a.contains(t) <==> b.contains(t),
    ensures
        a == b,
    decreases a.len(),
{
    if a.len() == 0 {
        if b.len() > 0 {
            assert(b.contains(b[0]));
        }
        assert(b =~= a);
    } else if b.len() == 0 {
        assert(a.contains(a[0]));
    } else {
        assert(a.contains(a[0]));
        assert(b.contains(b[0]));
        let ka = choose|k: int| 0 <= k < b.len() && b[k] == a[0];
        let kb = choose|k: int| 0 <= k < a.len() && a[k] == b[0];
        if a[0] != b[0] {
            assert(ka > 0 && kb > 0);
            assert(text_lt(b[0], b[ka]));
            assert(text_lt(a[0], a[kb]));
            lemma_text_lt_transitive(a[0], b[0], a[0]);
            lemma_text_lt_irreflexive(a[0]);
        }
        let ra = a.drop_first();
        let rb = b.drop_first();
        assert forall|t: Seq<char>| ra.contains(t) <==> rb.contains(t) by {
            if ra.contains(t) {
                let k = choose|k: int| 0 <= k < ra.len() && ra[k] == t;
                assert(a[k + 1] == t);
                assert(text_lt(a[0], a[k + 1]));
                assert(b.contains(t));
                let m = choose|m: int| 0 <= m < b.len() && b[m] == t;
                if m == 0 {
                    lemma_text_lt_irreflexive(a[0]);
                }
                assert(rb[m - 1] == t);
            }
            if rb.contains(t) {
                let k = choose|k: int| 0 <= k < rb.len() && rb[k] == t;
                assert(b[k + 1] == t);
                assert(text_lt(b[0], b[k + 1]));
                assert(a.contains(t));
                let m = choose|m: int| 0 <= m < a.len() && a[m] == t;
                if m == 0 {
                    lemma_text_lt_irreflexive(b[0]);
                }
                assert(ra[m - 1] == t);
            }
        }
        assert forall|i: int, j: int| 0 <= i < j < ra.len() implies text_lt(
            #[trigger] ra[i],
            #[trigger] ra[j],
        ) by {
            assert(ra[i] == a[i + 1] && ra[j] == a[j + 1]);
        }
        assert forall|i: int, j: int| 0 <= i < j < rb.len() implies text_lt(
            #[trigger] rb[i],
            #[trigger] rb[j],
        ) by {
            assert(rb[i] == b[i + 1] && rb[j] == b[j + 1]);
        }
        lemma_sorted_refs_are_canonical(ra, rb);
        assert(a =~= seq![a[0]] + ra);
        assert(b =~= seq![b[0]] + rb);
    }
}

} // verus!
