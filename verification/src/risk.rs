//! The pre-trade risk gate: which checks a thesis fails, and whether it is
//! approved, rejected, or held for operator sign-off.
use vstd::prelude::*;

use crate::domain::{DecisionStatus, OperationalMode};
use crate::text::push_text;

verus! {

/// The discrete limits of the risk policy. The policy's numeric thresholds
/// (position size, confidence floor, loss limits, exposure cap) are compared
/// by the caller, which reports the outcome in `RiskSignals`.
#[derive(Debug, Clone)]
pub struct RiskPolicyConfig {
    pub max_open_positions: usize,
    pub live_requires_human_approval: bool,
    pub blackout_markets: Vec<String>,
}

impl Default for RiskPolicyConfig {
    fn default() -> (policy: Self)
        ensures
            policy.max_open_positions == 8,
            policy.live_requires_human_approval,
            policy.blackout_markets@.len() == 0,
    {
        RiskPolicyConfig {
            max_open_positions: 8,
            live_requires_human_approval: true,
            blackout_markets: Vec::new(),
        }
    }
}

/// What the risk gate reads of a thesis and a portfolio.
#[derive(Debug, Clone)]
pub struct RiskSignals {
    /// The fusion layer abstained on the thesis.
    pub thesis_abstained: bool,
    /// The thesis confidence is below the policy's confidence floor.
    pub confidence_below_floor: bool,
    /// The thesis confidence, rendered with two decimals.
    pub confidence_text: String,
    /// The confidence floor, rendered with two decimals.
    pub floor_text: String,
    /// Positions open in the portfolio.
    pub open_positions: usize,
    /// Realized daily P&L is at or below minus the daily loss limit.
    pub daily_loss_breached: bool,
    /// Realized weekly P&L is at or below minus the weekly drawdown limit.
    pub weekly_drawdown_breached: bool,
    /// Correlated exposure is at or above the cap.
    pub correlated_exposure_breached: bool,
    /// The market of the thesis.
    pub market: String,
}

/// How the position size of a decision is capped.
#[derive(Debug, Clone, Copy, PartialEq, Eq, Structural)]
pub enum SizeCap {
    /// No position: the size is zero.
    Zero,
    /// The smaller of the recommended size and the policy's maximum.
    PolicyMax,
}

/// The verdict of the risk gate on one thesis.
#[derive(Debug, Clone)]
pub struct RiskDecision {
    pub approved: bool,
    pub status: DecisionStatus,
    pub reasons: Vec<String>,
    pub size_cap: SizeCap,
    pub required_approvals: Vec<String>,
    pub kill_switch_armed: bool,
}

/// The market is one of the policy's blackout markets.
pub open spec fn in_blackout(blackout_markets: Seq<String>, market: Seq<char>) -> bool {
    exists|i: int| 0 <= i < blackout_markets.len() && blackout_markets[i]@ == market
}

/// The reason given when the confidence is below the floor.
pub open spec fn confidence_reason(signals: RiskSignals) -> Seq<char> {
    "confidence "@ + signals.confidence_text@ + " is below floor "@ + signals.floor_text@
}

/// The reasons for rejection, one per failed check, in the order the checks
/// are made.
pub open spec fn risk_reasons(policy: RiskPolicyConfig, signals: RiskSignals) -> Seq<Seq<char>> {
    let r0 = Seq::<Seq<char>>::empty();
    let r1 = if signals.thesis_abstained {
        r0.push("fusion layer abstained"@)
    } else {
        r0
    };
    let r2 = if signals.confidence_below_floor {
        r1.push(confidence_reason(signals))
    } else {
        r1
    };
    let r3 = if signals.open_positions >= policy.max_open_positions {
        r2.push("open position limit reached"@)
    } else {
        r2
    };
    let r4 = if signals.daily_loss_breached {
        r3.push("daily loss threshold breached"@)
    } else {
        r3
    };
    let r5 = if signals.weekly_drawdown_breached {
        r4.push("weekly drawdown threshold breached"@)
    } else {
        r4
    };
    let r6 = if signals.correlated_exposure_breached {
        r5.push("correlated exposure cap breached"@)
    } else {
        r5
    };
    if in_blackout(policy.blackout_markets@, signals.market@) {
        r6.push("market is in blackout window"@)
    } else {
        r6
    }
}

/// Some check fails.
pub open spec fn some_check_fails(policy: RiskPolicyConfig, signals: RiskSignals) -> bool {
    ||| signals.thesis_abstained
    ||| signals.confidence_below_floor
    ||| signals.open_positions >= policy.max_open_positions
    ||| signals.daily_loss_breached
    ||| signals.weekly_drawdown_breached
    ||| signals.correlated_exposure_breached
    ||| in_blackout(policy.blackout_markets@, signals.market@)
}

/// The status of the decision: rejected when a check fails, held
/// for sign-off in live mode when the policy says so, approved otherwise.
pub open spec fn risk_status(
    policy: RiskPolicyConfig,
    signals: RiskSignals,
    mode: OperationalMode,
) -> DecisionStatus {
    if risk_reasons(policy, signals).len() > 0 {
        DecisionStatus::Rejected
    } else if mode == OperationalMode::Live && policy.live_requires_human_approval {
        DecisionStatus::RequiresHumanApproval
    } else {
        DecisionStatus::Approved
    }
}

/// The approvals that a decision with this status needs.
pub open spec fn required_approvals_for(status: DecisionStatus) -> Seq<Seq<char>> {
    if status == DecisionStatus::RequiresHumanApproval {
        seq!["risk_engine"@, "human_operator"@]
    } else {
        seq!["risk_engine"@]
    }
}

/// The size cap that goes with a status: zero on rejection.
pub open spec fn size_cap_for(status: DecisionStatus) -> SizeCap {
    if status == DecisionStatus::Rejected {
        SizeCap::Zero
    } else {
        SizeCap::PolicyMax
    }
}

/// The risk gate.
#[derive(Debug, Clone)]
pub struct RiskEngine {
    policy: RiskPolicyConfig,
    kill_switch_armed: bool,
}

fn text(literal: &str) -> (s: String)
    ensures
        s@ == literal@,
{
    String::from_str(literal)
}

fn market_in_blackout(blackout_markets: &Vec<String>, market: &String) -> (r: bool)
    ensures
        r == in_blackout(blackout_markets@, market@),
{
    let mut i: usize = 0;
    while i < blackout_markets.len()
        invariant
            i <= blackout_markets.len(),
            forall|k: int| 0 <= k < i ==> blackout_markets@[k]@ != market@,
        decreases blackout_markets.len() - i,
    {
        if blackout_markets[i] == *market {
            return true;
        }
        i = i + 1;
    }
    false
}

impl RiskEngine {
    /// The policy the engine enforces.
    pub closed spec fn policy(&self) -> RiskPolicyConfig {
        self.policy
    }

    /// Whether the kill switch is armed.
    pub closed spec fn armed(&self) -> bool {
        self.kill_switch_armed
    }

    /// An engine enforcing `policy`, with the kill switch armed.
    pub fn new(policy: RiskPolicyConfig) -> (engine: RiskEngine)
        ensures
            engine.policy() == policy,
            engine.armed(),
    {
        RiskEngine { policy, kill_switch_armed: true }
    }

    /// Evaluates a thesis against the policy in the given mode.
    pub fn evaluate(&self, signals: &RiskSignals, mode: OperationalMode) -> (decision: RiskDecision)
        ensures
            decision.reasons.deep_view() == risk_reasons(self.policy(), *signals),
            decision.status == risk_status(self.policy(), *signals, mode),
            decision.approved == (decision.status == DecisionStatus::Approved),
            decision.size_cap == size_cap_for(decision.status),
            decision.required_approvals.deep_view() == required_approvals_for(decision.status),
            decision.kill_switch_armed == self.armed(),
            decision.size_cap == SizeCap::Zero <==> decision.status == DecisionStatus::Rejected,
            decision.status == DecisionStatus::Rejected <==> decision.reasons@.len() > 0,
            decision.reasons@.len() == failed_check_count(self.policy(), *signals),
            decision.reasons@.len() == 0 && mode == OperationalMode::Live
                && self.policy().live_requires_human_approval ==> decision.status
                == DecisionStatus::RequiresHumanApproval,
            decision.reasons@.len() == 0 && !(mode == OperationalMode::Live
                && self.policy().live_requires_human_approval) ==> decision.status
                == DecisionStatus::Approved,
            decision.required_approvals@.len() >= 1,
            decision.required_approvals@[0]@ == "risk_engine"@,
            decision.status == DecisionStatus::RequiresHumanApproval ==> (
            decision.required_approvals@.len() == 2 && decision.required_approvals@[1]@
                == "human_operator"@),
            decision.status != DecisionStatus::RequiresHumanApproval
                ==> decision.required_approvals@.len() == 1,
            signals.thesis_abstained ==> decision.reasons.deep_view().contains(
                "fusion layer abstained"@,
            ),
            signals.confidence_below_floor ==> decision.reasons.deep_view().contains(
                "confidence "@ + signals.confidence_text@ + " is below floor "@
                    + signals.floor_text@,
            ),
            signals.open_positions >= self.policy().max_open_positions
                ==> decision.reasons.deep_view().contains("open position limit reached"@),
            signals.daily_loss_breached ==> decision.reasons.deep_view().contains(
                "daily loss threshold breached"@,
            ),
            signals.weekly_drawdown_breached ==> decision.reasons.deep_view().contains(
                "weekly drawdown threshold breached"@,
            ),
            signals.correlated_exposure_breached ==> decision.reasons.deep_view().contains(
                "correlated exposure cap breached"@,
            ),
            (exists|i: int|
                0 <= i < self.policy().blackout_markets@.len()
                    && self.policy().blackout_markets@[i]@ == signals.market@)
                ==> decision.reasons.deep_view().contains("market is in blackout window"@),
    {
        proof {
            lemma_reason_per_failed_check(self.policy(), *signals);
            lemma_size_zeroed_exactly_on_rejection(risk_status(self.policy(), *signals, mode));
        }
        let mut reasons: Vec<String> = Vec::new();
        let ghost policy = self.policy;
        if signals.thesis_abstained {
            reasons.push(text("fusion layer abstained"));
        }
        if signals.confidence_below_floor {
            let mut reason = text("confidence ");
            push_text(&mut reason, signals.confidence_text.as_str());
            push_text(&mut reason, " is below floor ");
            push_text(&mut reason, signals.floor_text.as_str());
            reasons.push(reason);
        }
        if signals.open_positions >= self.policy.max_open_positions {
            reasons.push(text("open position limit reached"));
        }
        if signals.daily_loss_breached {
            reasons.push(text("daily loss threshold breached"));
        }
        if signals.weekly_drawdown_breached {
            reasons.push(text("weekly drawdown threshold breached"));
        }
        if signals.correlated_exposure_breached {
            reasons.push(text("correlated exposure cap breached"));
        }
        if market_in_blackout(&self.policy.blackout_markets, &signals.market) {
            reasons.push(text("market is in blackout window"));
        }
        assert(reasons.deep_view() =~= risk_reasons(policy, *signals));

        let mut required_approvals: Vec<String> = Vec::new();
        required_approvals.push(text("risk_engine"));
        let status;
        let size_cap;
        if reasons.len() > 0 {
            status = DecisionStatus::Rejected;
            size_cap = SizeCap::Zero;
        } else if mode == OperationalMode::Live && self.policy.live_requires_human_approval {
            status = DecisionStatus::RequiresHumanApproval;
            size_cap = SizeCap::PolicyMax;
            required_approvals.push(text("human_operator"));
        } else {
            status = DecisionStatus::Approved;
            size_cap = SizeCap::PolicyMax;
        }
        assert(required_approvals.deep_view() =~= required_approvals_for(status));
        RiskDecision {
            approved: status == DecisionStatus::Approved,
            status,
            reasons,
            size_cap,
            required_approvals,
            kill_switch_armed: self.kill_switch_armed,
        }
    }
}

/// A thesis is rejected exactly when some check fails.
pub proof fn lemma_rejected_iff_some_check_fails(
    policy: RiskPolicyConfig,
    signals: RiskSignals,
    mode: OperationalMode,
)
    ensures
        (risk_status(policy, signals, mode) == DecisionStatus::Rejected) <==> some_check_fails(
            policy,
            signals,
        ),
        (risk_status(policy, signals, mode) == DecisionStatus::Rejected) <==> risk_reasons(
            policy,
            signals,
        ).len() > 0,
{
}

/// Execution is approved only when every check passes and the mode does not
/// call for operator sign-off; a rejection always zeroes the size.
pub proof fn lemma_approval_requires_every_check(
    policy: RiskPolicyConfig,
    signals: RiskSignals,
    mode: OperationalMode,
)
    ensures
        risk_status(policy, signals, mode) == DecisionStatus::Approved ==> {
            &&& !some_check_fails(policy, signals)
            &&& risk_reasons(policy, signals).len() == 0
            &&& !(mode == OperationalMode::Live && policy.live_requires_human_approval)
        },
        risk_status(policy, signals, mode) == DecisionStatus::Rejected ==> size_cap_for(
            risk_status(policy, signals, mode),
        ) == SizeCap::Zero,
{
}

/// In live mode under a policy that asks for sign-off, nothing is approved
/// outright: a passing thesis waits for the operator's sign-off.
pub proof fn lemma_live_mode_needs_human(
    policy: RiskPolicyConfig,
    signals: RiskSignals,
)
    requires
        policy.live_requires_human_approval,
    ensures
        risk_status(policy, signals, OperationalMode::Live) != DecisionStatus::Approved,
        !some_check_fails(policy, signals) ==> {
            &&& risk_status(policy, signals, OperationalMode::Live)
                == DecisionStatus::RequiresHumanApproval
            &&& required_approvals_for(risk_status(policy, signals, OperationalMode::Live)).contains(
                "human_operator"@,
            )
        },
{
    let s = risk_status(policy, signals, OperationalMode::Live);
    if s == DecisionStatus::RequiresHumanApproval {
        assert(required_approvals_for(s)[1] == "human_operator"@);
    }
}

/// Outside live mode no decision is held for operator sign-off, and every decision
/// names the risk engine as an approver.
pub proof fn lemma_mode_separation(
    policy: RiskPolicyConfig,
    signals: RiskSignals,
    mode: OperationalMode,
)
    ensures
        mode != OperationalMode::Live ==> risk_status(policy, signals, mode)
            != DecisionStatus::RequiresHumanApproval,
        required_approvals_for(risk_status(policy, signals, mode))[0] == "risk_engine"@,
{
}

/// `worse` fails every check that `better` fails (same policy, same market,
/// at least as many open positions).
pub open spec fn signals_at_least_as_bad(better: RiskSignals, worse: RiskSignals) -> bool {
    &&& better.thesis_abstained ==> worse.thesis_abstained
    &&& better.confidence_below_floor ==> worse.confidence_below_floor
    &&& better.open_positions <= worse.open_positions
    &&& better.daily_loss_breached ==> worse.daily_loss_breached
    &&& better.weekly_drawdown_breached ==> worse.weekly_drawdown_breached
    &&& better.correlated_exposure_breached ==> worse.correlated_exposure_breached
    &&& better.market@ == worse.market@
}

/// Monotonicity: when the signals get worse, an approval can only be lost and
/// a rejection is kept.
pub proof fn lemma_worse_signals_never_approve_more(
    policy: RiskPolicyConfig,
    better: RiskSignals,
    worse: RiskSignals,
    mode: OperationalMode,
)
    requires
        signals_at_least_as_bad(better, worse),
    ensures
        risk_status(policy, worse, mode) == DecisionStatus::Approved ==> risk_status(
            policy,
            better,
            mode,
        ) == DecisionStatus::Approved,
        risk_status(policy, better, mode) == DecisionStatus::Rejected ==> risk_status(
            policy,
            worse,
            mode,
        ) == DecisionStatus::Rejected,
{
    lemma_rejected_iff_some_check_fails(policy, better, mode);
    lemma_rejected_iff_some_check_fails(policy, worse, mode);
}

} // verus!

verus! {

/// A thesis on which the fusion layer abstained is rejected in every mode,
/// with zero size, and the first reason given is the abstention.
pub proof fn lemma_abstained_thesis_is_rejected(
    policy: RiskPolicyConfig,
    signals: RiskSignals,
    mode: OperationalMode,
)
    requires
        signals.thesis_abstained,
    ensures
        risk_status(policy, signals, mode) == DecisionStatus::Rejected,
        size_cap_for(risk_status(policy, signals, mode)) == SizeCap::Zero,
        risk_reasons(policy, signals)[0] == "fusion layer abstained"@,
{
}

} // verus!

verus! {

/// How many checks fail: one for each of the seven checks.
pub open spec fn failed_check_count(policy: RiskPolicyConfig, signals: RiskSignals) -> nat {
    (if signals.thesis_abstained { 1nat } else { 0nat }) + (if signals.confidence_below_floor {
        1nat
    } else {
        0nat
    }) + (if signals.open_positions >= policy.max_open_positions {
        1nat
    } else {
        0nat
    }) + (if signals.daily_loss_breached {
        1nat
    } else {
        0nat
    }) + (if signals.weekly_drawdown_breached {
        1nat
    } else {
        0nat
    }) + (if signals.correlated_exposure_breached {
        1nat
    } else {
        0nat
    }) + (if exists|i: int|
        0 <= i < policy.blackout_markets@.len() && policy.blackout_markets@[i]@ == signals.market@ {
        1nat
    } else {
        0nat
    })
}

/// The reasons collected after the first `k` checks.
pub open spec fn reasons_after(policy: RiskPolicyConfig, signals: RiskSignals, k: nat) -> Seq<
    Seq<char>,
>
    decreases k,
{
    if k == 0 {
        Seq::empty()
    } else {
        let prev = reasons_after(policy, signals, (k - 1) as nat);
        if check_fails(policy, signals, (k - 1) as nat) {
            prev.push(check_reason(signals, (k - 1) as nat))
        } else {
            prev
        }
    }
}

/// Check number `k` fails (checks are numbered in the order they are made).
pub open spec fn check_fails(policy: RiskPolicyConfig, signals: RiskSignals, k: nat) -> bool {
    if k == 0 {
        signals.thesis_abstained
    } else if k == 1 {
        signals.confidence_below_floor
    } else if k == 2 {
        signals.open_positions >= policy.max_open_positions
    } else if k == 3 {
        signals.daily_loss_breached
    } else if k == 4 {
        signals.weekly_drawdown_breached
    } else if k == 5 {
        signals.correlated_exposure_breached
    } else {
        exists|i: int|
            0 <= i < policy.blackout_markets@.len() && policy.blackout_markets@[i]@
                == signals.market@
    }
}

/// The reason given when check number `k` fails.
pub open spec fn check_reason(signals: RiskSignals, k: nat) -> Seq<char> {
    if k == 0 {
        "fusion layer abstained"@
    } else if k == 1 {
        "confidence "@ + signals.confidence_text@ + " is below floor "@ + signals.floor_text@
    } else if k == 2 {
        "open position limit reached"@
    } else if k == 3 {
        "daily loss threshold breached"@
    } else if k == 4 {
        "weekly drawdown threshold breached"@
    } else if k == 5 {
        "correlated exposure cap breached"@
    } else {
        "market is in blackout window"@
    }
}

proof fn lemma_reasons_after_all(policy: RiskPolicyConfig, signals: RiskSignals)
    ensures
        risk_reasons(policy, signals) == reasons_after(policy, signals, 7),
{
    reveal_with_fuel(reasons_after, 8);
    assert(risk_reasons(policy, signals) =~= reasons_after(policy, signals, 7));
}

proof fn lemma_reasons_after_grow(policy: RiskPolicyConfig, signals: RiskSignals, k: nat, m: nat)
    requires
        k <= m,
    ensures
        reasons_after(policy, signals, k).is_prefix_of(reasons_after(policy, signals, m)),
    decreases m - k,
{
    if k < m {
        lemma_reasons_after_grow(policy, signals, k, (m - 1) as nat);
    }
}

/// Each failed check gives one reason with its own text; when every check
/// fails the reasons come in the order of the checks.
pub proof fn lemma_reason_per_failed_check(policy: RiskPolicyConfig, signals: RiskSignals)
    ensures
        risk_reasons(policy, signals).len() == failed_check_count(policy, signals),
        signals.thesis_abstained ==> risk_reasons(policy, signals).contains(
            "fusion layer abstained"@,
        ),
        signals.confidence_below_floor ==> risk_reasons(policy, signals).contains(
            "confidence "@ + signals.confidence_text@ + " is below floor "@ + signals.floor_text@,
        ),
        signals.open_positions >= policy.max_open_positions ==> risk_reasons(
            policy,
            signals,
        ).contains("open position limit reached"@),
        signals.daily_loss_breached ==> risk_reasons(policy, signals).contains(
            "daily loss threshold breached"@,
        ),
        signals.weekly_drawdown_breached ==> risk_reasons(policy, signals).contains(
            "weekly drawdown threshold breached"@,
        ),
        signals.correlated_exposure_breached ==> risk_reasons(policy, signals).contains(
            "correlated exposure cap breached"@,
        ),
        (exists|i: int|
            0 <= i < policy.blackout_markets@.len() && policy.blackout_markets@[i]@
                == signals.market@) ==> risk_reasons(policy, signals).contains(
            "market is in blackout window"@,
        ),
        failed_check_count(policy, signals) == 7 ==> risk_reasons(policy, signals) == seq![
            "fusion layer abstained"@,
            "confidence "@ + signals.confidence_text@ + " is below floor "@ + signals.floor_text@,
            "open position limit reached"@,
            "daily loss threshold breached"@,
            "weekly drawdown threshold breached"@,
            "correlated exposure cap breached"@,
            "market is in blackout window"@,
        ],
{
    lemma_reasons_after_all(policy, signals);
    reveal_with_fuel(reasons_after, 8);
    let r = reasons_after(policy, signals, 7);
    assert forall|k: nat| k < 7 && #[trigger] check_fails(policy, signals, k) implies r.contains(
        check_reason(signals, k),
    ) by {
        lemma_reasons_after_grow(policy, signals, k + 1, 7);
        let pre = reasons_after(policy, signals, k + 1);
        let idx = reasons_after(policy, signals, k).len() as int;
        assert(pre[idx] == check_reason(signals, k));
        assert(r[idx] == pre[idx]);
    }
    assert(check_fails(policy, signals, 0) == signals.thesis_abstained);
    assert(check_fails(policy, signals, 1) == signals.confidence_below_floor);
    assert(check_fails(policy, signals, 2) == (signals.open_positions
        >= policy.max_open_positions));
    assert(check_fails(policy, signals, 3) == signals.daily_loss_breached);
    assert(check_fails(policy, signals, 4) == signals.weekly_drawdown_breached);
    assert(check_fails(policy, signals, 5) == signals.correlated_exposure_breached);
    if failed_check_count(policy, signals) == 7 {
        assert(r =~= seq![
            "fusion layer abstained"@,
            "confidence "@ + signals.confidence_text@ + " is below floor "@ + signals.floor_text@,
            "open position limit reached"@,
            "daily loss threshold breached"@,
            "weekly drawdown threshold breached"@,
            "correlated exposure cap breached"@,
            "market is in blackout window"@,
        ]);
    }
}

/// The size is zeroed exactly on rejection: a decision held for sign-off or
/// approved keeps the policy's size cap.
pub proof fn lemma_size_zeroed_exactly_on_rejection(status: DecisionStatus)
    ensures
        size_cap_for(status) == SizeCap::Zero <==> status == DecisionStatus::Rejected,
        status != DecisionStatus::Rejected ==> size_cap_for(status) == SizeCap::PolicyMax,
{
}

} // verus!
