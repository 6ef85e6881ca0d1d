//! Order staging: an approved action becomes a paper trade or a live order
//! only with the risk engine's approval, and only in paper or live mode.
use vstd::prelude::*;

use crate::domain::{ActionKind, Direction, OperationalMode};

verus! {

/// Where a staged order goes.
#[derive(Debug, Clone, Copy, PartialEq, Eq, Structural)]
pub enum StagedKind {
    /// A simulated trade, status "staged".
    Paper,
    /// A broker order, status "awaiting_submission".
    Live,
}

/// What staging decides for an approved action.
#[derive(Debug, Clone)]
pub struct StagePlan {
    pub kind: StagedKind,
    pub side: Direction,
    pub status: String,
}

/// The side an action trades on.
pub open spec fn side_for(action: ActionKind) -> Direction {
    match action {
        ActionKind::OpenLong => Direction::Long,
        ActionKind::OpenShort => Direction::Short,
        _ => Direction::Neutral,
    }
}

/// The approvals include the risk engine's.
pub open spec fn risk_engine_approved(approved_by: Seq<String>) -> bool {
    exists|i: int| 0 <= i < approved_by.len() && approved_by[i]@ == "risk_engine"@
}

/// The message when the risk engine's approval is missing.
pub open spec fn approval_missing_message() -> Seq<char> {
    "risk_engine approval missing"@
}

/// The message when the mode is neither paper nor live.
pub open spec fn unsupported_mode_message() -> Seq<char> {
    "execution staging only supports paper or live mode"@
}

/// The status a staged order starts in.
pub open spec fn staged_status(kind: StagedKind) -> Seq<char> {
    match kind {
        StagedKind::Paper => "staged"@,
        StagedKind::Live => "awaiting_submission"@,
    }
}

fn has_risk_engine_approval(approved_by: &Vec<String>) -> (r: bool)
    ensures
        r == risk_engine_approved(approved_by@),
{
    let wanted = String::from_str("risk_engine");
    let mut i: usize = 0;
    while i < approved_by.len()
        invariant
            i <= approved_by.len(),
            wanted@ == "risk_engine"@,
            forall|k: int| 0 <= k < i ==> approved_by@[k]@ != "risk_engine"@,
        decreases approved_by.len() - i,
    {
        if approved_by[i] == wanted {
            return true;
        }
        i = i + 1;
    }
    false
}

/// Stages an approved action: refuses it without the risk engine's approval,
/// refuses modes other than paper and live, and otherwise says where the
/// order goes, on which side, and in which status.
pub fn stage_order(approved_by: &Vec<String>, action: ActionKind, mode: OperationalMode) -> (r:
    Result<StagePlan, String>)
    ensures
        !risk_engine_approved(approved_by@) ==> (r matches Err(m) && m@ == approval_missing_message()),
        risk_engine_approved(approved_by@) && mode != OperationalMode::Paper && mode
            != OperationalMode::Live ==> (r matches Err(m) && m@ == unsupported_mode_message()),
        r matches Ok(plan) ==> {
            &&& risk_engine_approved(approved_by@)
            &&& (mode == OperationalMode::Paper || mode == OperationalMode::Live)
            &&& plan.kind == (if mode == OperationalMode::Paper {
                StagedKind::Paper
            } else {
                StagedKind::Live
            })
            &&& plan.side == side_for(action)
            &&& plan.status@ == staged_status(plan.kind)
        },
        risk_engine_approved(approved_by@) && (mode == OperationalMode::Paper || mode
            == OperationalMode::Live) ==> r is Ok,
        (exists|i: int| 0 <= i < approved_by@.len() && approved_by@[i]@ == "risk_engine"@) && (
        mode == OperationalMode::Paper || mode == OperationalMode::Live) ==> r is Ok,
        (forall|i: int| 0 <= i < approved_by@.len() ==> approved_by@[i]@ != "risk_engine"@) ==> (
        r matches Err(m) && m@ == "risk_engine approval missing"@),
        r is Ok ==> exists|i: int| 0 <= i < approved_by@.len() && approved_by@[i]@ == "risk_engine"@,
        (mode == OperationalMode::Research || mode == OperationalMode::Backtest) ==> r is Err,
        r matches Ok(plan) ==> {
            &&& (action == ActionKind::OpenLong ==> plan.side == Direction::Long)
            &&& (action == ActionKind::OpenShort ==> plan.side == Direction::Short)
            &&& (action != ActionKind::OpenLong && action != ActionKind::OpenShort ==> plan.side
                == Direction::Neutral)
            &&& (mode == OperationalMode::Paper ==> plan.kind == StagedKind::Paper && plan.status@
                == "staged"@)
            &&& (mode == OperationalMode::Live ==> plan.kind == StagedKind::Live && plan.status@
                == "awaiting_submission"@)
        },
{
    if !has_risk_engine_approval(approved_by) {
        return Err(String::from_str("risk_engine approval missing"));
    }
    let side = match action {
        ActionKind::OpenLong => Direction::Long,
        ActionKind::OpenShort => Direction::Short,
        _ => Direction::Neutral,
    };
    match mode {
        OperationalMode::Paper => Ok(
            StagePlan { kind: StagedKind::Paper, side, status: String::from_str("staged") },
        ),
        OperationalMode::Live => Ok(
            StagePlan {
                kind: StagedKind::Live,
                side,
                status: String::from_str("awaiting_submission"),
            },
        ),
        _ => Err(String::from_str("execution staging only supports paper or live mode")),
    }
}

/// The risk engine's approval is membership: it counts wherever it stands
/// among the approvals.
pub proof fn lemma_approval_is_membership(approved_by: Seq<String>, position: int)
    ensures
        risk_engine_approved(approved_by) <==> exists|i: int|
            0 <= i < approved_by.len() && approved_by[i]@ == "risk_engine"@,
        0 <= position < approved_by.len() && approved_by[position]@ == "risk_engine"@
            ==> risk_engine_approved(approved_by),
{
}

/// An order trades on the side its action opens, and neutral otherwise.
pub proof fn lemma_side_follows_action(action: ActionKind)
    ensures
        side_for(ActionKind::OpenLong) == Direction::Long,
        side_for(ActionKind::OpenShort) == Direction::Short,
        action != ActionKind::OpenLong && action != ActionKind::OpenShort ==> side_for(action)
            == Direction::Neutral,
        staged_status(StagedKind::Paper) == "staged"@,
        staged_status(StagedKind::Live) == "awaiting_submission"@,
{
}

} // verus!
