//! Types and decisions of a medical-document review workflow built on the
//! engine: extract a document's text, summarise it, wait for a doctor's
//! feedback, then search the literature.

use vstd::prelude::*;
use crate::context::Context;
use crate::error::GraphError;
use crate::graph::opt_view;
use crate::json::JsonValue;
use crate::pubmed::{trim_of, trim_str};
use crate::task::{NextAction, TaskResult};

verus! {

/// A medical document and what the workflow has learnt about it so far.
#[derive(Debug)]
pub struct MedicalDocument {
    pub id: String,
    pub pdf_path: String,
    pub extracted_text: Option<String>,
    pub initial_summary: Option<String>,
    pub human_feedback: Option<String>,
    pub integrated_summary: Option<String>,
    pub research_keywords: Option<Vec<String>>,
    pub research_articles: Option<Vec<ResearchArticle>>,
    pub research_summary: Option<String>,
    pub final_report: Option<String>,
}

/// An article found in the literature.
#[derive(Debug)]
pub struct ResearchArticle {
    pub pmid: String,
    pub title: String,
    pub abstract_text: String,
    pub authors: Option<String>,
    pub journal: Option<String>,
    pub publication_date: Option<String>,
}

/// A request to analyse the document at a path.
#[derive(Debug)]
pub struct AnalyzeDocumentRequest {
    pub pdf_path: String,
}

/// A doctor's feedback on a summary.
#[derive(Debug)]
pub struct HumanFeedbackRequest {
    pub feedback: String,
}

/// The checkpoint at which a doctor reviews the initial summary.
#[derive(Debug)]
pub struct HumanReviewTask;

impl HumanReviewTask {
    /// Decides the checkpoint on the document read from the context.
    ///
    /// Without a document, or without an initial summary, the task fails.
    /// With feedback already given, the workflow moves on at once. Otherwise
    /// it marks the context as waiting for feedback and waits for input.
    pub fn review(document: Option<&MedicalDocument>, context: &mut Context) -> (r: Result<TaskResult, GraphError>)
        ensures
            match document {
                None => r matches Err(GraphError::ContextError(m)) && m@ == "Document not found in context"@,
                Some(d) => if d.initial_summary is None {
                    r matches Err(GraphError::TaskExecutionFailed(m)) && m@
                        == "Initial summary required for human review"@
                } else if d.human_feedback is Some {
                    r matches Ok(t) && t.next_action == NextAction::ContinueAndExecute
                        && t.response is None && opt_view(t.status_message) == Some(
                        "Human feedback received, proceeding to integration"@,
                    )
                } else {
                    r matches Ok(t) && t.next_action == NextAction::WaitForInput && opt_view(t.response)
                        == Some("Summary Ready, Waiting for Doctor Review"@) && opt_view(t.status_message)
                        == Some("Please provide feedback on the initial summary"@)
                },
            },
            (r is Ok && document.unwrap().human_feedback is None) ==> final(context).values()
                == old(context).values().insert("waiting_for_human_feedback"@, JsonValue::Bool(true)),
            !(r is Ok && document.unwrap().human_feedback is None) ==> final(context).values() == old(
                context,
            ).values(),
            final(context).history() == old(context).history(),
    {
        match document {
            None => Err(GraphError::ContextError("Document not found in context".to_owned())),
            Some(d) => {
                if d.initial_summary.is_none() {
                    return Err(
                        GraphError::TaskExecutionFailed("Initial summary required for human review".to_owned()),
                    );
                }
                if d.human_feedback.is_some() {
                    return Ok(
                        TaskResult::new_with_status(
                            None,
                            NextAction::ContinueAndExecute,
                            Some("Human feedback received, proceeding to integration".to_owned()),
                        ),
                    );
                }
                context.set("waiting_for_human_feedback", JsonValue::Bool(true));
                Ok(
                    TaskResult::new_with_status(
                        Some("Summary Ready, Waiting for Doctor Review".to_owned()),
                        NextAction::WaitForInput,
                        Some("Please provide feedback on the initial summary".to_owned()),
                    ),
                )
            },
        }
    }
}

/// Accepts text that is not empty once trimmed; otherwise fails with
/// `error`.
pub fn check_present(trimmed: &str, error: &str) -> (r: Result<(), String>)
    ensures
        r is Ok <==> trimmed@.len() > 0,
        r matches Err(m) ==> m@ == error@,
{
    if trimmed.is_empty() {
        Err(error.to_owned())
    } else {
        Ok(())
    }
}

/// Accepts a document path that is not blank.
pub fn validate_pdf_path(pdf_path: &str) -> (r: Result<(), String>)
    ensures
        r is Ok <==> trim_of(pdf_path@).len() > 0,
        r matches Err(m) ==> m@ == "PDF path is required"@,
{
    check_present(trim_str(pdf_path), "PDF path is required")
}

/// Accepts feedback that is not blank.
pub fn validate_feedback(feedback: &str) -> (r: Result<(), String>)
    ensures
        r is Ok <==> trim_of(feedback@).len() > 0,
        r matches Err(m) ==> m@ == "Feedback cannot be empty"@,
{
    check_present(trim_str(feedback), "Feedback cannot be empty")
}

/// The status shown for a session: `completed` once the workflow has
/// completed, else `waiting_for_input` while a doctor's feedback is awaited,
/// else `active`.
pub fn session_status(workflow_completed: bool, waiting_for_feedback: bool) -> (r: String)
    ensures
        r@ == (if workflow_completed {
            "completed"@
        } else if waiting_for_feedback {
            "waiting_for_input"@
        } else {
            "active"@
        }),
{
    if workflow_completed {
        "completed".to_owned()
    } else if waiting_for_feedback {
        "waiting_for_input".to_owned()
    } else {
        "active".to_owned()
    }
}

} // verus!
