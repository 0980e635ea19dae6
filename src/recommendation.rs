//! Types and decisions of a movie-recommendation workflow built on the
//! engine: refine the query, search, answer, validate the answer (retrying a
//! bounded number of times), deliver.

use vstd::prelude::*;
use crate::context::{bounded_push, message, stamp_after, Context, MessageRole, Timestamp};
use crate::error::GraphError;
use crate::json::JsonValue;
use crate::task::{NextAction, TaskResult};

verus! {

/// How many times an answer may be generated again after failing validation.
pub const MAX_RETRIES: u32 = 3;

/// The validator's verdict on an answer.
#[derive(Debug, Clone)]
pub struct ValidationResult {
    pub passed: bool,
    pub comment: Option<String>,
}

/// A movie found by the search.
#[derive(Debug, Clone)]
pub struct Movie {
    pub id: i32,
    pub title: String,
    pub overview: String,
}

/// Where the service finds its databases and its language model.
#[derive(Debug, Clone)]
pub struct ServiceConfig {
    pub database_url: String,
    pub movies_database_url: String,
    pub openrouter_api_key: String,
}

/// The characters of the feedback added to the chat when an answer fails
/// validation with `comment`.
pub open spec fn retry_feedback(comment: Seq<char>) -> Seq<char> {
    "The answer is not good enough. Reason: "@ + comment
}

/// What validation decided.
#[derive(Debug)]
pub struct Judgement {
    /// The result the validation task returns.
    pub result: TaskResult,
    /// The retry count to store for the next attempt, where the answer is to
    /// be generated again.
    pub next_retry_count: Option<u32>,
}

/// The task that checks a generated answer.
#[derive(Debug)]
pub struct ValidationTask;

impl ValidationTask {
    /// Acts on the validator's verdict after `retry_count` retries, at clock
    /// time `now`.
    ///
    /// The verdict is kept in the context. A passing answer moves on at once.
    /// A failing one without a comment fails the task; so does one after
    /// [`MAX_RETRIES`] retries. Otherwise the comment goes into the chat
    /// history as user feedback, and the answer is generated again with the
    /// retry count one higher.
    pub fn judge(verdict: &ValidationResult, retry_count: u32, now: Timestamp, context: &mut Context) -> (r: Result<Judgement, GraphError>)
        ensures
            final(context).values() == old(context).values().insert(
                "validation_passed"@,
                JsonValue::Bool(verdict.passed),
            ),
            verdict.passed ==> (r matches Ok(j) && j.result.next_action == NextAction::ContinueAndExecute
                && j.result.response is None && j.next_retry_count is None),
            !verdict.passed && verdict.comment is None ==> (r matches Err(GraphError::TaskExecutionFailed(m))
                && m@ == "No validation comment"@),
            !verdict.passed && verdict.comment is Some && retry_count >= MAX_RETRIES ==> (r matches Err(GraphError::TaskExecutionFailed(m))
                && m@ == "Maximum retry attempts (3) exceeded. Last validation comment: "@
                + verdict.comment->Some_0@),
            !verdict.passed && verdict.comment is Some && retry_count < MAX_RETRIES ==> (r matches Ok(j)
                && j.result.next_action == NextAction::ContinueAndExecute && j.result.response is None
                && j.next_retry_count == Some((retry_count + 1) as u32)),
            (!verdict.passed && verdict.comment is Some && retry_count < MAX_RETRIES) ==> exists|f: String|
                f@ == retry_feedback(verdict.comment->Some_0@) && final(context).history()@ == bounded_push(
                    old(context).history()@,
                    #[trigger] message(MessageRole::User, f, stamp_after(old(context).history()@, now)),
                    old(context).history().bound(),
                ),
            !(!verdict.passed && verdict.comment is Some && retry_count < MAX_RETRIES) ==> final(context).history() == old(context).history(),
            final(context).history().bound() == old(context).history().bound(),
    {
        context.set("validation_passed", JsonValue::Bool(verdict.passed));
        if verdict.passed {
            return Ok(Judgement { result: TaskResult::new(None, NextAction::ContinueAndExecute), next_retry_count: None });
        }
        match &verdict.comment {
            None => Err(GraphError::TaskExecutionFailed("No validation comment".to_owned())),
            Some(comment) => {
                if retry_count >= MAX_RETRIES {
                    let mut m = "Maximum retry attempts (3) exceeded. Last validation comment: ".to_owned();
                    m.append(comment.as_str());
                    return Err(GraphError::TaskExecutionFailed(m));
                }
                let mut feedback = "The answer is not good enough. Reason: ".to_owned();
                feedback.append(comment.as_str());
                assert(feedback@ == retry_feedback(comment@));
                context.add_message_at(MessageRole::User, feedback, now);
                Ok(
                    Judgement {
                        result: TaskResult::new(None, NextAction::ContinueAndExecute),
                        next_retry_count: Some(retry_count + 1),
                    },
                )
            },
        }
    }
}

/// The task that hands the validated answer to the user.
#[derive(Debug)]
pub struct DeliveryTask;

impl DeliveryTask {
    /// Ends the workflow with the answer read from the context; fails where
    /// the answer or the retry count is missing.
    pub fn deliver(answer: Option<String>, retry_count: Option<u32>) -> (r: Result<TaskResult, GraphError>)
        ensures
            answer is None ==> (r matches Err(GraphError::TaskExecutionFailed(m)) && m@
                == "answer not found in context"@),
            answer is Some && retry_count is None ==> (r matches Err(GraphError::TaskExecutionFailed(m))
                && m@ == "retry_count not found in context"@),
            answer is Some && retry_count is Some ==> (r matches Ok(t) && t.response == answer
                && t.next_action == NextAction::End),
    {
        match answer {
            None => Err(GraphError::TaskExecutionFailed("answer not found in context".to_owned())),
            Some(a) => match retry_count {
                None => Err(GraphError::TaskExecutionFailed("retry_count not found in context".to_owned())),
                Some(_) => Ok(TaskResult::new(Some(a), NextAction::End)),
            },
        }
    }
}

} // verus!
