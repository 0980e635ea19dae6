//! Graphs of tasks and edges, how the next task is found, and what happens to
//! a session once a task has run.

use vstd::prelude::*;
use crate::context::Context;
use crate::error::GraphError;
use crate::json::{is_text_value, JsonValue};
use crate::session::Session;
use crate::task::{NextAction, TaskResult};

verus! {

/// A predicate on a context's values that guards an edge.
#[derive(Debug)]
pub enum EdgeCondition {
    /// Holds when `key` stores a string equal to `text`.
    TextEquals { key: String, text: String },
    /// Holds when `key` stores the boolean `true`.
    Flag { key: String },
    /// Holds when the inner condition does not.
    Not(Box<EdgeCondition>),
}

/// Whether condition `c` holds of the values `values`.
pub open spec fn condition_holds(c: EdgeCondition, values: Map<Seq<char>, JsonValue>) -> bool
    decreases c,
{
    match c {
        EdgeCondition::TextEquals { key, text } => values.contains_key(key@) && is_text_value(
            values[key@],
            text@,
        ),
        EdgeCondition::Flag { key } => values.contains_key(key@) && values[key@] == JsonValue::Bool(
            true,
        ),
        EdgeCondition::Not(inner) => !condition_holds(*inner, values),
    }
}

impl Clone for EdgeCondition {
    fn clone(&self) -> (r: Self)
        ensures
            r == *self,
        decreases self,
    {
        match self {
            EdgeCondition::TextEquals { key, text } => EdgeCondition::TextEquals {
                key: key.clone(),
                text: text.clone(),
            },
            EdgeCondition::Flag { key } => EdgeCondition::Flag { key: key.clone() },
            EdgeCondition::Not(inner) => EdgeCondition::Not(Box::new((&**inner).clone())),
        }
    }
}

impl EdgeCondition {
    /// Whether this condition holds of the context's current values.
    pub fn holds(&self, context: &Context) -> (r: bool)
        ensures
            r == condition_holds(*self, context.values()),
        decreases self,
    {
        match self {
            EdgeCondition::TextEquals { key, text } => match context.get_sync(key.as_str()) {
                Some(v) => v.is_text(text),
                None => false,
            },
            EdgeCondition::Flag { key } => match context.get_sync(key.as_str()) {
                Some(v) => v.is_true(),
                None => false,
            },
            EdgeCondition::Not(inner) => !(&**inner).holds(context),
        }
    }
}

/// An edge from one task to another; with a condition, it is followed only
/// when the condition holds.
#[derive(Debug)]
pub struct Edge {
    pub from: String,
    pub to: String,
    pub condition: Option<EdgeCondition>,
}

impl Clone for Edge {
    fn clone(&self) -> (r: Self)
        ensures
            r == *self,
    {
        Edge { from: self.from.clone(), to: self.to.clone(), condition: self.condition.clone() }
    }
}

/// Edge `e` goes from `from` to `to` under `condition`.
pub open spec fn is_edge(e: Edge, from: Seq<char>, to: Seq<char>, condition: Option<EdgeCondition>) -> bool {
    e.from@ == from && e.to@ == to && e.condition == condition
}

/// Edge `e` leaves task `current` and may be followed under `values`.
pub open spec fn edge_fires(e: Edge, current: Seq<char>, values: Map<Seq<char>, JsonValue>) -> bool {
    e.from@ == current && match e.condition {
        Some(c) => condition_holds(c, values),
        None => true,
    }
}

/// The target of the first edge at or after position `i` that fires.
pub open spec fn first_firing(
    edges: Seq<Edge>,
    current: Seq<char>,
    values: Map<Seq<char>, JsonValue>,
    i: int,
) -> Option<Seq<char>>
    decreases edges.len() - i,
{
    if i < 0 || i >= edges.len() {
        None
    } else if edge_fires(edges[i], current, values) {
        Some(edges[i].to@)
    } else {
        first_firing(edges, current, values, i + 1)
    }
}

/// The characters of an optional string.
pub open spec fn opt_view(o: Option<String>) -> Option<Seq<char>> {
    match o {
        Some(s) => Some(s@),
        None => None,
    }
}

/// How a step ended, as far as the caller of the engine is concerned.
#[derive(Debug, PartialEq, Eq)]
pub enum ExecutionStatus {
    /// The workflow waits for input before the next step.
    WaitingForInput,
    /// The workflow is complete.
    Completed,
    /// The engine or the storage failed without raising an error.
    Error(String),
}

/// What one step hands back to its caller.
#[derive(Debug, PartialEq, Eq)]
pub struct ExecutionResult {
    /// The response of the last task that ran.
    pub response: Option<String>,
    pub status: ExecutionStatus,
}

/// What the engine does once a task's result is applied to the session.
#[derive(Debug)]
pub enum StepOutcome {
    /// The step is over.
    Done(ExecutionResult),
    /// The session now points at the next task, which is to run at once
    /// against the same context.
    RunNext,
}

/// A step that ends waiting for input, with the given response.
pub open spec fn waiting(response: Option<String>) -> Result<StepOutcome, GraphError> {
    Ok(StepOutcome::Done(ExecutionResult { response, status: ExecutionStatus::WaitingForInput }))
}

/// A registry of task ids, the edges between them, and the task a new
/// session starts at.
#[derive(Debug)]
pub struct Graph {
    pub id: String,
    tasks: Vec<String>,
    edges: Vec<Edge>,
    start_task_id: Option<String>,
}

impl Graph {
    /// The graph's id.
    pub closed spec fn name(&self) -> String {
        self.id
    }

    /// The ids of the tasks, in the order they were added.
    pub closed spec fn task_list(&self) -> Seq<String> {
        self.tasks@
    }

    /// The edges, in the order they were added.
    pub closed spec fn edge_list(&self) -> Seq<Edge> {
        self.edges@
    }

    /// The task a new session starts at, if one is set.
    pub closed spec fn start(&self) -> Option<String> {
        self.start_task_id
    }

    /// The start task, if set, is registered.
    pub open spec fn wf(&self) -> bool {
        match self.start() {
            Some(s) => self.has_task(s@),
            None => true,
        }
    }

    /// A task with id `id` is registered.
    pub open spec fn has_task(&self, id: Seq<char>) -> bool {
        exists|i: int| 0 <= i < self.task_list().len() && #[trigger] self.task_list()[i]@ == id
    }

    /// Every edge leads to a registered task.
    pub open spec fn edges_valid(&self) -> bool {
        forall|i: int| 0 <= i < self.edge_list().len() ==> self.has_task(#[trigger] self.edge_list()[i].to@)
    }

    /// The task that the edges lead to from `current` under `values`: the
    /// target of the first edge, in the order added, that leaves `current` and
    /// either has no condition or one that holds.
    pub open spec fn next_after(&self, current: Seq<char>, values: Map<Seq<char>, JsonValue>) -> Option<Seq<char>> {
        first_firing(self.edge_list(), current, values, 0)
    }

    /// The task a session points at once task `executed` has asked for
    /// `action` under `values`; `None` where the step fails.
    pub open spec fn step_target(
        &self,
        executed: Seq<char>,
        values: Map<Seq<char>, JsonValue>,
        action: NextAction,
    ) -> Option<Seq<char>> {
        match action {
            NextAction::Continue | NextAction::ContinueAndExecute => match self.next_after(executed, values) {
                Some(next) => Some(next),
                None => Some(executed),
            },
            NextAction::GoTo(target) => if self.has_task(target@) {
                Some(target@)
            } else {
                None
            },
            _ => Some(executed),
        }
    }

    /// What a step hands back once task `executed` has returned `result` under
    /// `values`.
    pub open spec fn step_outcome(
        &self,
        executed: Seq<char>,
        values: Map<Seq<char>, JsonValue>,
        result: TaskResult,
    ) -> Result<StepOutcome, GraphError> {
        match result.next_action {
            NextAction::End => Ok(
                StepOutcome::Done(
                    ExecutionResult { response: result.response, status: ExecutionStatus::Completed },
                ),
            ),
            NextAction::ContinueAndExecute => if self.next_after(executed, values).is_some() {
                Ok(StepOutcome::RunNext)
            } else {
                waiting(result.response)
            },
            NextAction::GoTo(target) => if self.has_task(target@) {
                waiting(result.response)
            } else {
                Err(GraphError::TaskNotFound(target))
            },
            _ => waiting(result.response),
        }
    }

    /// An empty graph.
    pub fn new(id: &str) -> (r: Self)
        ensures
            r.name()@ == id@,
            r.task_list() == Seq::<String>::empty(),
            r.edge_list() == Seq::<Edge>::empty(),
            r.start().is_none(),
            r.wf(),
    {
        Graph { id: id.to_owned(), tasks: Vec::new(), edges: Vec::new(), start_task_id: None }
    }

    /// Whether a task with id `task_id` is registered.
    pub fn contains_task(&self, task_id: &str) -> (r: bool)
        ensures
            r == self.has_task(task_id@),
    {
        let id = task_id.to_owned();
        let mut i: usize = 0;
        while i < self.tasks.len()
            invariant
                i <= self.tasks@.len(),
                id@ == task_id@,
                forall|j: int| 0 <= j < i ==> #[trigger] self.tasks@[j]@ != task_id@,
            decreases self.tasks@.len() - i,
        {
            if self.tasks[i] == id {
                assert(self.task_list()[i as int]@ == task_id@);
                return true;
            }
            i = i + 1;
        }
        false
    }

    /// Registers the task id `task_id`; the first task registered becomes the
    /// start task.
    pub fn add_task(&mut self, task_id: &str)
        ensures
            old(self).wf() ==> final(self).wf(),
            final(self).has_task(task_id@),
            forall|t: Seq<char>| t != task_id@ ==> (final(self).has_task(t) <==> old(self).has_task(t)),
            old(self).has_task(task_id@) ==> final(self).task_list() == old(self).task_list(),
            !old(self).has_task(task_id@) ==> final(self).task_list().len() == old(self).task_list().len() + 1
                && final(self).task_list().drop_last() == old(self).task_list()
                && final(self).task_list().last()@ == task_id@,
            opt_view(final(self).start()) == (if old(self).task_list().len() == 0 {
                Some(task_id@)
            } else {
                opt_view(old(self).start())
            }),
            final(self).edge_list() == old(self).edge_list(),
            final(self).name() == old(self).name(),
    {
        let is_first = self.tasks.len() == 0;
        if !self.contains_task(task_id) {
            let ghost before = *self;
            self.tasks.push(task_id.to_owned());
            if is_first {
                self.start_task_id = Some(task_id.to_owned());
            }
            proof {
                let tasks = self.tasks;
                assert(self.task_list()[tasks@.len() - 1]@ == task_id@);
                assert forall|t: Seq<char>| #[trigger] before.has_task(t) implies self.has_task(t) by {
                    let i = choose|i: int| 0 <= i < before.tasks@.len() && before.tasks@[i]@ == t;
                    assert(self.task_list()[i] == before.tasks@[i]);
                }
                assert forall|t: Seq<char>| t != task_id@ && #[trigger] self.has_task(t) implies before.has_task(t) by {
                    let i = choose|i: int| 0 <= i < tasks@.len() && tasks@[i]@ == t;
                    assert(before.task_list()[i] == tasks@[i]);
                }
                assert(tasks@.drop_last() =~= before.tasks@);
                if !is_first && before.wf() && before.start_task_id.is_some() {
                    assert(before.has_task(before.start_task_id.unwrap()@));
                    assert(self.has_task(before.start_task_id.unwrap()@));
                }
            }
        }
    }

    /// Makes `task_id` the start task, if such a task is registered.
    pub fn set_start_task(&mut self, task_id: &str)
        ensures
            old(self).wf() ==> final(self).wf(),
            opt_view(final(self).start()) == (if old(self).has_task(task_id@) {
                Some(task_id@)
            } else {
                opt_view(old(self).start())
            }),
            final(self).task_list() == old(self).task_list(),
            final(self).edge_list() == old(self).edge_list(),
            final(self).name() == old(self).name(),
    {
        if self.contains_task(task_id) {
            self.start_task_id = Some(task_id.to_owned());
        }
        proof {
            lemma_same_tasks(*old(self), *self);
        }
    }

    /// Adds an edge without a condition from `from` to `to`.
    pub fn add_edge(&mut self, from: &str, to: &str)
        ensures
            old(self).wf() ==> final(self).wf(),
            final(self).edge_list().len() == old(self).edge_list().len() + 1,
            final(self).edge_list().drop_last() == old(self).edge_list(),
            is_edge(final(self).edge_list().last(), from@, to@, None),
            final(self).task_list() == old(self).task_list(),
            final(self).start() == old(self).start(),
            final(self).name() == old(self).name(),
    {
        let ghost before = *self;
        self.edges.push(Edge { from: from.to_owned(), to: to.to_owned(), condition: None });
        proof {
            lemma_same_tasks(before, *self);
        }
    }

    /// Adds an edge from `from` to `to` that is followed only when `condition`
    /// holds.
    pub fn add_conditional_edge(&mut self, from: &str, to: &str, condition: EdgeCondition)
        ensures
            old(self).wf() ==> final(self).wf(),
            final(self).edge_list().len() == old(self).edge_list().len() + 1,
            final(self).edge_list().drop_last() == old(self).edge_list(),
            is_edge(final(self).edge_list().last(), from@, to@, Some(condition)),
            final(self).task_list() == old(self).task_list(),
            final(self).start() == old(self).start(),
            final(self).name() == old(self).name(),
    {
        let ghost before = *self;
        self.edges.push(Edge { from: from.to_owned(), to: to.to_owned(), condition: Some(condition) });
        proof {
            lemma_same_tasks(before, *self);
        }
    }

    /// Adds a two-way branch from `from`: to `yes` when `condition` holds,
    /// otherwise to `no`.
    pub fn add_branch(&mut self, from: &str, condition: EdgeCondition, yes: &str, no: &str)
        ensures
            old(self).wf() ==> final(self).wf(),
            final(self).edge_list().len() == old(self).edge_list().len() + 2,
            final(self).edge_list().subrange(0, old(self).edge_list().len() as int) == old(self).edge_list(),
            is_edge(final(self).edge_list()[old(self).edge_list().len() as int], from@, yes@, Some(condition)),
            is_edge(final(self).edge_list().last(), from@, no@, None),
            final(self).task_list() == old(self).task_list(),
            final(self).start() == old(self).start(),
            final(self).name() == old(self).name(),
    {
        self.add_conditional_edge(from, yes, condition);
        self.add_edge(from, no);
        proof {
            assert(self.edge_list().drop_last().drop_last() =~= self.edge_list().subrange(0, old(self).edge_list().len() as int));
        }
    }

    /// The task the edges lead to from `current_task_id` under the context's
    /// values, if any edge fires.
    pub fn find_next_task(&self, current_task_id: &str, context: &Context) -> (r: Option<String>)
        ensures
            opt_view(r) == self.next_after(current_task_id@, context.values()),
    {
        let current = current_task_id.to_owned();
        let mut i: usize = 0;
        while i < self.edges.len()
            invariant
                i <= self.edges@.len(),
                current@ == current_task_id@,
                first_firing(self.edges@, current@, context.values(), 0) == first_firing(
                    self.edges@,
                    current@,
                    context.values(),
                    i as int,
                ),
            decreases self.edges@.len() - i,
        {
            let edge = &self.edges[i];
            if edge.from == current {
                match &edge.condition {
                    Some(condition) => {
                        if condition.holds(context) {
                            return Some(edge.to.clone());
                        }
                    },
                    None => {
                        return Some(edge.to.clone());
                    },
                }
            }
            i = i + 1;
        }
        None
    }

    /// The task a new session starts at, if one is set.
    pub fn start_task_id(&self) -> (r: Option<String>)
        requires
            self.wf(),
        ensures
            r == self.start(),
            r.is_some() ==> self.has_task(r.unwrap()@),
    {
        self.start_task_id.clone()
    }

    /// The check that opens a step: the session's current task must be
    /// registered.
    pub fn begin_step(&self, session: &Session) -> (r: Result<(), GraphError>)
        ensures
            r is Ok <==> self.has_task(session.current_task_id@),
            r is Err ==> r == Err::<(), GraphError>(GraphError::TaskNotFound(session.current_task_id)),
    {
        if self.contains_task(session.current_task_id.as_str()) {
            Ok(())
        } else {
            Err(GraphError::TaskNotFound(session.current_task_id.clone()))
        }
    }

    /// Applies the result of the session's current task to the session.
    ///
    /// The result's status message becomes the session's. `End`,
    /// `WaitForInput` and `GoBack` keep the session at the task that ran;
    /// `Continue` moves it along the first edge that fires, or keeps it where
    /// no edge does; `ContinueAndExecute` does the same, and asks for the next
    /// task to run at once where an edge fired; `GoTo` moves it to the named
    /// task, and fails with `TaskNotFound` where there is none, leaving the
    /// session as it was. The context is never touched, so a task run next
    /// sees every write of the tasks before it.
    pub fn finish_step(&self, session: &mut Session, result: TaskResult) -> (r: Result<StepOutcome, GraphError>)
        ensures
            r == self.step_outcome(old(session).current_task_id@, old(session).context.values(), result),
            r is Ok ==> opt_view(Some(final(session).current_task_id)) == self.step_target(
                old(session).current_task_id@,
                old(session).context.values(),
                result.next_action,
            ),
            r is Ok ==> final(session).status_message == result.status_message,
            r is Err ==> *final(session) == *old(session),
            final(session).context == old(session).context,
            final(session).id == old(session).id,
            final(session).graph_id == old(session).graph_id,
    {
        let TaskResult { response, next_action, task_id: _, status_message } = result;
        match next_action {
            NextAction::End => {
                session.status_message = status_message;
                Ok(StepOutcome::Done(ExecutionResult { response, status: ExecutionStatus::Completed }))
            },
            NextAction::WaitForInput | NextAction::GoBack => {
                session.status_message = status_message;
                Ok(StepOutcome::Done(ExecutionResult { response, status: ExecutionStatus::WaitingForInput }))
            },
            NextAction::Continue => {
                session.status_message = status_message;
                match self.find_next_task(session.current_task_id.as_str(), &session.context) {
                    Some(next) => {
                        session.current_task_id = next;
                    },
                    None => {},
                }
                Ok(StepOutcome::Done(ExecutionResult { response, status: ExecutionStatus::WaitingForInput }))
            },
            NextAction::ContinueAndExecute => {
                session.status_message = status_message;
                match self.find_next_task(session.current_task_id.as_str(), &session.context) {
                    Some(next) => {
                        session.current_task_id = next;
                        Ok(StepOutcome::RunNext)
                    },
                    None => Ok(StepOutcome::Done(ExecutionResult { response, status: ExecutionStatus::WaitingForInput })),
                }
            },
            NextAction::GoTo(target) => {
                if self.contains_task(target.as_str()) {
                    session.status_message = status_message;
                    session.current_task_id = target;
                    Ok(StepOutcome::Done(ExecutionResult { response, status: ExecutionStatus::WaitingForInput }))
                } else {
                    Err(GraphError::TaskNotFound(target))
                }
            },
        }
    }

    /// What the older run-to-completion mode does after a task: with
    /// `Continue` and no response, the task the edges lead to runs next (none
    /// where no edge fires); with `GoTo`, the named task runs next, or the run
    /// fails where there is no such task; otherwise the run stops.
    pub fn follow_up(&self, task_id: &str, result: &TaskResult, context: &Context) -> (r: Result<Option<String>, GraphError>)
        ensures
            match result.next_action {
                NextAction::Continue => if result.response.is_some() {
                    r == Ok::<Option<String>, GraphError>(None)
                } else {
                    r is Ok && opt_view(r.unwrap()) == self.next_after(task_id@, context.values())
                },
                NextAction::GoTo(target) => if self.has_task(target@) {
                    r == Ok::<Option<String>, GraphError>(Some(target))
                } else {
                    r == Err::<Option<String>, GraphError>(GraphError::TaskNotFound(target))
                },
                _ => r == Ok::<Option<String>, GraphError>(None),
            },
    {
        match &result.next_action {
            NextAction::Continue => {
                if result.response.is_some() {
                    Ok(None)
                } else {
                    Ok(self.find_next_task(task_id, context))
                }
            },
            NextAction::GoTo(target) => {
                if self.contains_task(target.as_str()) {
                    Ok(Some(target.clone()))
                } else {
                    Err(GraphError::TaskNotFound(target.clone()))
                }
            },
            _ => Ok(None),
        }
    }
}

/// Builds a [`Graph`] by chained calls.
#[derive(Debug)]
pub struct GraphBuilder {
    graph: Graph,
}

impl GraphBuilder {
    /// The graph built so far.
    pub closed spec fn current(&self) -> Graph {
        self.graph
    }

    /// A builder of an empty graph.
    pub fn new(id: &str) -> (r: Self)
        ensures
            r.current().name()@ == id@,
            r.current().task_list() == Seq::<String>::empty(),
            r.current().edge_list() == Seq::<Edge>::empty(),
            r.current().start().is_none(),
            r.current().wf(),
    {
        GraphBuilder { graph: Graph::new(id) }
    }

    /// Registers a task id, as [`Graph::add_task`] does.
    pub fn add_task(self, task_id: &str) -> (r: Self)
        ensures
            r.current().has_task(task_id@),
            forall|t: Seq<char>| t != task_id@ ==> (r.current().has_task(t) <==> self.current().has_task(t)),
            opt_view(r.current().start()) == (if self.current().task_list().len() == 0 {
                Some(task_id@)
            } else {
                opt_view(self.current().start())
            }),
            r.current().edge_list() == self.current().edge_list(),
            self.current().wf() ==> r.current().wf(),
    {
        let mut graph = self.graph;
        graph.add_task(task_id);
        GraphBuilder { graph }
    }

    /// Adds an edge without a condition, as [`Graph::add_edge`] does.
    pub fn add_edge(self, from: &str, to: &str) -> (r: Self)
        ensures
            r.current().edge_list().len() == self.current().edge_list().len() + 1,
            r.current().edge_list().drop_last() == self.current().edge_list(),
            is_edge(r.current().edge_list().last(), from@, to@, None),
            r.current().task_list() == self.current().task_list(),
            r.current().start() == self.current().start(),
            self.current().wf() ==> r.current().wf(),
    {
        let mut graph = self.graph;
        graph.add_edge(from, to);
        GraphBuilder { graph }
    }

    /// Adds a conditional edge, as [`Graph::add_conditional_edge`] does.
    pub fn add_conditional_edge(self, from: &str, to: &str, condition: EdgeCondition) -> (r: Self)
        ensures
            r.current().edge_list().len() == self.current().edge_list().len() + 1,
            r.current().edge_list().drop_last() == self.current().edge_list(),
            is_edge(r.current().edge_list().last(), from@, to@, Some(condition)),
            r.current().task_list() == self.current().task_list(),
            r.current().start() == self.current().start(),
            self.current().wf() ==> r.current().wf(),
    {
        let mut graph = self.graph;
        graph.add_conditional_edge(from, to, condition);
        GraphBuilder { graph }
    }

    /// Adds a two-way branch, as [`Graph::add_branch`] does.
    pub fn add_branch(self, from: &str, condition: EdgeCondition, yes: &str, no: &str) -> (r: Self)
        ensures
            r.current().edge_list().len() == self.current().edge_list().len() + 2,
            r.current().edge_list().subrange(0, self.current().edge_list().len() as int) == self.current().edge_list(),
            is_edge(r.current().edge_list()[self.current().edge_list().len() as int], from@, yes@, Some(condition)),
            is_edge(r.current().edge_list().last(), from@, no@, None),
            r.current().task_list() == self.current().task_list(),
            r.current().start() == self.current().start(),
            self.current().wf() ==> r.current().wf(),
    {
        let mut graph = self.graph;
        graph.add_branch(from, condition, yes, no);
        GraphBuilder { graph }
    }

    /// Sets the start task, as [`Graph::set_start_task`] does.
    pub fn set_start_task(self, task_id: &str) -> (r: Self)
        ensures
            opt_view(r.current().start()) == (if self.current().has_task(task_id@) {
                Some(task_id@)
            } else {
                opt_view(self.current().start())
            }),
            r.current().task_list() == self.current().task_list(),
            r.current().edge_list() == self.current().edge_list(),
            self.current().wf() ==> r.current().wf(),
    {
        let mut graph = self.graph;
        graph.set_start_task(task_id);
        GraphBuilder { graph }
    }

    /// The graph built.
    pub fn build(self) -> (r: Graph)
        ensures
            r == self.current(),
    {
        self.graph
    }
}

/// Two graphs with the same task list register the same tasks.
proof fn lemma_same_tasks(a: Graph, b: Graph)
    requires
        a.tasks == b.tasks,
    ensures
        forall|id: Seq<char>| #[trigger] a.has_task(id) <==> b.has_task(id),
{
    assert forall|id: Seq<char>| #[trigger] a.has_task(id) implies b.has_task(id) by {
        let i = choose|i: int| 0 <= i < a.tasks@.len() && a.tasks@[i]@ == id;
        assert(b.task_list()[i]@ == id);
    }
    assert forall|id: Seq<char>| #[trigger] b.has_task(id) implies a.has_task(id) by {
        let i = choose|i: int| 0 <= i < b.tasks@.len() && b.tasks@[i]@ == id;
        assert(a.task_list()[i]@ == id);
    }
}

} // verus!
