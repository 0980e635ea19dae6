use vstd::prelude::*;

verus! {

/// What the engine should do once a task has run.
#[derive(Debug, PartialEq, Eq)]
pub enum NextAction {
    /// Move to the next task along the edges, but run it on a later step.
    Continue,
    /// Move to the next task along the edges and run it in the same step.
    ContinueAndExecute,
    /// Move to the named task, to be run on a later step.
    GoTo(String),
    /// Reserved: stays at the current task and waits for input.
    GoBack,
    /// The workflow is complete.
    End,
    /// Stay at the current task until the next input arrives.
    WaitForInput,
}

impl Clone for NextAction {
    fn clone(&self) -> (r: Self)
        ensures
            r == *self,
    {
        match self {
            NextAction::Continue => NextAction::Continue,
            NextAction::ContinueAndExecute => NextAction::ContinueAndExecute,
            NextAction::GoTo(t) => NextAction::GoTo(t.clone()),
            NextAction::GoBack => NextAction::GoBack,
            NextAction::End => NextAction::End,
            NextAction::WaitForInput => NextAction::WaitForInput,
        }
    }
}

/// What a task hands back to the engine.
#[derive(Debug, PartialEq, Eq)]
pub struct TaskResult {
    /// Response to surface to the caller.
    pub response: Option<String>,
    /// Transition requested by the task.
    pub next_action: NextAction,
    /// Id of the task that produced this result; filled in by the engine.
    pub task_id: String,
    /// Optional description of the task's progress.
    pub status_message: Option<String>,
}

impl Clone for TaskResult {
    fn clone(&self) -> (r: Self)
        ensures
            r == *self,
    {
        TaskResult {
            response: self.response.clone(),
            next_action: self.next_action.clone(),
            task_id: self.task_id.clone(),
            status_message: self.status_message.clone(),
        }
    }
}

impl TaskResult {
    /// A result with a response and a next action; no status message.
    pub fn new(response: Option<String>, next_action: NextAction) -> (r: Self)
        ensures
            r.response == response,
            r.next_action == next_action,
            r.task_id@ == Seq::<char>::empty(),
            r.status_message.is_none(),
    {
        TaskResult { response, next_action, task_id: String::new(), status_message: None }
    }

    /// A result with a response, a next action and a status message.
    pub fn new_with_status(
        response: Option<String>,
        next_action: NextAction,
        status_message: Option<String>,
    ) -> (r: Self)
        ensures
            r.response == response,
            r.next_action == next_action,
            r.task_id@ == Seq::<char>::empty(),
            r.status_message == status_message,
    {
        TaskResult { response, next_action, task_id: String::new(), status_message }
    }

    /// This result, marked as produced by the task `task_id`.
    pub fn stamped(self, task_id: &str) -> (r: Self)
        ensures
            r.task_id@ == task_id@,
            r.response == self.response,
            r.next_action == self.next_action,
            r.status_message == self.status_message,
    {
        TaskResult { task_id: task_id.to_owned(), ..self }
    }

    /// A silent result that moves along the edges on the next step.
    pub fn move_to_next() -> (r: Self)
        ensures
            r.response.is_none(),
            r.next_action == NextAction::Continue,
            r.task_id@ == Seq::<char>::empty(),
            r.status_message.is_none(),
    {
        TaskResult {
            response: None,
            next_action: NextAction::Continue,
            task_id: String::new(),
            status_message: None,
        }
    }

    /// A silent result that moves along the edges and runs the next task at once.
    pub fn move_to_next_direct() -> (r: Self)
        ensures
            r.response.is_none(),
            r.next_action == NextAction::ContinueAndExecute,
            r.task_id@ == Seq::<char>::empty(),
            r.status_message.is_none(),
    {
        TaskResult {
            response: None,
            next_action: NextAction::ContinueAndExecute,
            task_id: String::new(),
            status_message: None,
        }
    }
}

} // verus!
