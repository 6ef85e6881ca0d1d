//! Decisions of the orchestrator around a chat request: the regime a
//! message calls for, the account a mode trades in, and how a blocked
//! decision is summarized.
use vstd::prelude::*;

use crate::domain::OperationalMode;
use crate::text::{contains_text, lowercase, lowercase_of, push_text, str_contains};

verus! {

/// The regime a lowercased message calls for: "volatile" when it speaks of
/// volatility, else "base".
pub open spec fn regime_for_lowered(lowered: Seq<char>) -> Seq<char> {
    if contains_text(lowered, "volatility"@) {
        "volatile"@
    } else {
        "base"@
    }
}

/// The regime for a message that is already lowercased.
pub fn regime_for_lowered_message(lowered: &str) -> (regime: String)
    ensures
        regime@ == regime_for_lowered(lowered@),
        contains_text(lowered@, "volatility"@) ==> regime@ == "volatile"@,
        !contains_text(lowered@, "volatility"@) ==> regime@ == "base"@,
{
    if str_contains(lowered, "volatility") {
        String::from_str("volatile")
    } else {
        String::from_str("base")
    }
}

/// The regime an operator message calls for, after lowercasing it.
pub fn regime_for_message(message: &str) -> (regime: String)
    ensures
        regime@ == regime_for_lowered(lowercase_of(message@)),
        contains_text(lowercase_of(message@), "volatility"@) ==> regime@ == "volatile"@,
        !contains_text(lowercase_of(message@), "volatility"@) ==> regime@ == "base"@,
{
    let lowered = lowercase(message);
    regime_for_lowered_message(lowered.as_str())
}

/// The account a mode trades in.
pub open spec fn account_for(mode: OperationalMode) -> Seq<char> {
    match mode {
        OperationalMode::Research => "research"@,
        OperationalMode::Backtest => "backtest"@,
        OperationalMode::Paper => "paper"@,
        OperationalMode::Live => "live"@,
    }
}

/// The account of the default portfolio of a mode.
pub fn default_account_id(mode: OperationalMode) -> (account: String)
    ensures
        account@ == account_for(mode),
        mode == OperationalMode::Research ==> account@ == "research"@,
        mode == OperationalMode::Backtest ==> account@ == "backtest"@,
        mode == OperationalMode::Paper ==> account@ == "paper"@,
        mode == OperationalMode::Live ==> account@ == "live"@,
{
    match mode {
        OperationalMode::Research => String::from_str("research"),
        OperationalMode::Backtest => String::from_str("backtest"),
        OperationalMode::Paper => String::from_str("paper"),
        OperationalMode::Live => String::from_str("live"),
    }
}

/// The texts joined with a separator between each two.
pub open spec fn joined(items: Seq<Seq<char>>, sep: Seq<char>) -> Seq<char>
    decreases items.len(),
{
    if items.len() == 0 {
        Seq::empty()
    } else if items.len() == 1 {
        items[0]
    } else {
        joined(items.drop_last(), sep) + sep + items.last()
    }
}

/// The summary of a blocked decision: the reasons joined by "; ".
pub open spec fn blocked_summary_text(reasons: Seq<Seq<char>>) -> Seq<char> {
    "Execution blocked: "@ + joined(reasons, "; "@)
}

/// Summarizes a decision that blocks execution.
pub fn blocked_summary(reasons: &Vec<String>) -> (summary: String)
    ensures
        summary@ == blocked_summary_text(reasons.deep_view()),
        summary@ == "Execution blocked: "@ + joined(reasons.deep_view(), "; "@),
{
    let mut body = String::new();
    let mut i: usize = 0;
    while i < reasons.len()
        invariant
            i <= reasons.len(),
            body@ == joined(reasons.deep_view().take(i as int), "; "@),
        decreases reasons.len() - i,
    {
        if i > 0 {
            push_text(&mut body, "; ");
        }
        push_text(&mut body, reasons[i].as_str());
        assert(reasons.deep_view().take(i + 1).drop_last() =~= reasons.deep_view().take(i as int));
        i = i + 1;
    }
    assert(reasons.deep_view().take(reasons.len() as int) =~= reasons.deep_view());
    let mut summary = String::from_str("Execution blocked: ");
    push_text(&mut summary, body.as_str());
    summary
}

/// The audit status of a chat request: "approved" or "blocked".
pub fn audit_status(approved: bool) -> (status: String)
    ensures
        status@ == (if approved {
            "approved"@
        } else {
            "blocked"@
        }),
{
    if approved {
        String::from_str("approved")
    } else {
        String::from_str("blocked")
    }
}

/// Joining puts the separator between each two texts and nowhere else: no
/// texts give the empty text, one text gives itself, and one more text adds
/// the separator and that text.
pub proof fn lemma_joined_separates(items: Seq<Seq<char>>, sep: Seq<char>, next: Seq<char>)
    ensures
        joined(Seq::empty(), sep) == Seq::<char>::empty(),
        joined(seq![next], sep) == next,
        items.len() > 0 ==> joined(items.push(next), sep) == joined(items, sep) + sep + next,
{
    if items.len() > 0 {
        assert(items.push(next).drop_last() =~= items);
    }
}

} // verus!
