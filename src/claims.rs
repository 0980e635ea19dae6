//! Types and decisions of an insurance-claims assistant built on the engine:
//! classify the claim, collect its details, route it by amount, and wait for
//! a manual approval where one is needed.

use vstd::prelude::*;
use crate::context::Context;
use crate::graph::opt_view;
use crate::json::JsonValue;
use crate::pubmed::find_from;
use crate::task::{NextAction, TaskResult};

verus! {

/// The decision taken on an insurance claim.
#[derive(Debug, Clone)]
pub struct ClaimDecision {
    pub approved: bool,
    pub decision_reason: String,
    pub timestamp: String,
}

/// What `str::to_lowercase` makes of a string.
pub uninterp spec fn lower_of(s: Seq<char>) -> Seq<char>;

/// Relies on `str::to_lowercase`: the result depends on the characters alone.
#[verifier::external_body]
fn lowercase(s: &str) -> (r: String)
    ensures
        r@ == lower_of(s@),
{
    s.to_lowercase()
}

/// `needle` occurs somewhere in `h`.
pub open spec fn contains_text(h: Seq<char>, needle: Seq<char>) -> bool {
    find_from(h, needle, 0) is Some
}

/// Whether `needle` occurs in `h`.
pub fn contains_chars(h: &str, needle: &str) -> (r: bool)
    ensures
        r == contains_text(h@, needle@),
{
    let hv = crate::pubmed::chars_of(h);
    let nv = crate::pubmed::chars_of(needle);
    crate::pubmed::find_chars(&hv, &nv, 0).is_some()
}

/// The task that routes a claim by amount and waits for a manual approval.
#[derive(Debug)]
pub struct SmartClaimValidatorTask;

impl SmartClaimValidatorTask {
    /// Acts on the reply to a pending approval, given in lower case: a reply
    /// that says "approved" approves the claim at time `timestamp`, marks the
    /// approval as completed in the context and moves on; any other reply
    /// keeps waiting. The decision, where one was taken, is handed back for
    /// the caller to keep.
    pub fn approval_from_lowercase(lowered: &str, timestamp: String, context: &mut Context) -> (r: (TaskResult, Option<ClaimDecision>))
        ensures
            contains_text(lowered@, "approved"@) ==> r.0.next_action == NextAction::Continue,
            contains_text(lowered@, "approved"@) ==> r.0.response is None,
            contains_text(lowered@, "approved"@) ==> opt_view(r.0.status_message) == Some(
                "Manual approval received - proceeding to final summary"@,
            ),
            contains_text(lowered@, "approved"@) ==> (r.1 matches Some(d) && d.approved && d.timestamp
                == timestamp && d.decision_reason@ == "Claim approved by manual review"@),
            contains_text(lowered@, "approved"@) ==> exists|s: String|
                #[trigger] s@ == "completed"@ && final(context).values() == old(context).values().insert(
                    "approval_state"@,
                    JsonValue::Text(s),
                ),
            !contains_text(lowered@, "approved"@) ==> r.0.next_action == NextAction::WaitForInput
                && opt_view(r.0.response) == Some("Waiting for approval decision."@) && opt_view(
                r.0.status_message,
            ) == Some("Waiting for approval decision - please respond with 'approved' to approve"@)
                && r.1 is None && final(context).values() == old(context).values(),
            final(context).history() == old(context).history(),
    {
        if contains_chars(lowered, "approved") {
            let decision = ClaimDecision {
                approved: true,
                decision_reason: "Claim approved by manual review".to_owned(),
                timestamp,
            };
            let state = "completed".to_owned();
            let ghost kept = state;
            context.set("approval_state", JsonValue::Text(state));
            assert(kept@ == "completed"@);
            let result = TaskResult::new_with_status(
                None,
                NextAction::Continue,
                Some("Manual approval received - proceeding to final summary".to_owned()),
            );
            (result, Some(decision))
        } else {
            let result = TaskResult::new_with_status(
                Some("Waiting for approval decision.".to_owned()),
                NextAction::WaitForInput,
                Some("Waiting for approval decision - please respond with 'approved' to approve".to_owned()),
            );
            (result, None)
        }
    }

    /// Acts on the reply to a pending approval, as
    /// [`SmartClaimValidatorTask::approval_from_lowercase`] does with the
    /// reply in lower case.
    pub fn handle_approval_decision(user_input: &str, timestamp: String, context: &mut Context) -> (r: (TaskResult, Option<ClaimDecision>))
        ensures
            contains_text(lower_of(user_input@), "approved"@) ==> r.0.next_action == NextAction::Continue
                && r.1 is Some,
            !contains_text(lower_of(user_input@), "approved"@) ==> r.0.next_action
                == NextAction::WaitForInput && r.1 is None && final(context).values() == old(
                context,
            ).values(),
            final(context).history() == old(context).history(),
    {
        let lowered = lowercase(user_input);
        Self::approval_from_lowercase(lowered.as_str(), timestamp, context)
    }
}

} // verus!
