//! Properties that hold across the library's operations, proved over the
//! spec functions their contracts use.

use vstd::prelude::*;
use crate::context::{
    bounded_push, entries_map, keys_unique, within_bound, ChatHistory, Context, SerializableMessage,
};
use crate::error::GraphError;
use crate::graph::{
    edge_fires, first_firing, Edge, ExecutionResult, ExecutionStatus, Graph, StepOutcome,
};
use crate::json::JsonValue;
use crate::session::{same_session, Session, SessionData};
use crate::store::lookup;
use crate::task::{NextAction, TaskResult};

verus! {

/// Where the edges lead from a task, they lead to the target of one of them.
proof fn lemma_first_firing_is_target(
    edges: Seq<Edge>,
    current: Seq<char>,
    values: Map<Seq<char>, JsonValue>,
    i: int,
)
    requires
        0 <= i,
        first_firing(edges, current, values, i) is Some,
    ensures
        exists|j: int|
            i <= j < edges.len() && #[trigger] edges[j].to@ == first_firing(
                edges,
                current,
                values,
                i,
            )->Some_0,
    decreases edges.len() - i,
{
    if i < edges.len() && !edge_fires(edges[i], current, values) {
        lemma_first_firing_is_target(edges, current, values, i + 1);
    }
}

/// A step that succeeds leaves the session at a task of the graph, where the
/// task that ran is one and every edge leads to one.
pub proof fn law_step_stays_in_graph(
    g: Graph,
    executed: Seq<char>,
    values: Map<Seq<char>, JsonValue>,
    result: TaskResult,
)
    requires
        g.edges_valid(),
        g.has_task(executed),
        g.step_outcome(executed, values, result) is Ok,
    ensures
        g.step_target(executed, values, result.next_action) is Some,
        g.has_task(g.step_target(executed, values, result.next_action)->Some_0),
{
    if g.next_after(executed, values) is Some {
        lemma_first_firing_is_target(g.edge_list(), executed, values, 0);
    }
}

/// However many messages are added, a bounded history never holds more than
/// its bound: each addition leaves it within the bound, whatever it held.
pub proof fn law_history_stays_bounded(s: Seq<SerializableMessage>, m: SerializableMessage, n: usize)
    ensures
        within_bound(bounded_push(s, m, Some(n)), Some(n)),
{
}

/// Adding a message to a history that is full drops exactly the oldest
/// message.
pub proof fn law_full_history_drops_oldest(
    s: Seq<SerializableMessage>,
    m: SerializableMessage,
    n: usize,
)
    requires
        n > 0,
        s.len() == n,
    ensures
        bounded_push(s, m, Some(n)) == s.drop_first().push(m),
{
    assert(bounded_push(s, m, Some(n)) =~= s.drop_first().push(m));
}

/// Laying a context out as pairs and a history, then building a context from
/// that, gives back the same values and the same history.
pub proof fn law_context_round_trip(
    c: Context,
    pairs: Seq<(String, JsonValue)>,
    history: ChatHistory,
    r: Context,
)
    requires
        keys_unique(pairs),
        entries_map(pairs) == c.values(),
        history@ == c.history()@,
        history.bound() == c.history().bound(),
        r.values() == entries_map(pairs),
        r.history() == history,
    ensures
        r.values() == c.values(),
        r.history()@ == c.history()@,
        r.history().bound() == c.history().bound(),
{
}

/// What is read back under a key right after a value was stored there is that
/// value.
pub proof fn law_set_then_get(values: Map<Seq<char>, JsonValue>, key: Seq<char>, v: JsonValue)
    ensures
        lookup(values.insert(key, v), key) == Some(v),
{
}

/// Edge resolution depends on the graph, the task and the context's values
/// alone: two lookups under the same values find the same task.
pub proof fn law_find_next_deterministic(g: Graph, current: Seq<char>, c1: Context, c2: Context)
    requires
        c1.values() == c2.values(),
    ensures
        g.next_after(current, c1.values()) == g.next_after(current, c2.values()),
{
}

/// Where no edge leaving the task fires, there is no next task.
pub proof fn law_no_matching_edge(g: Graph, current: Seq<char>, values: Map<Seq<char>, JsonValue>)
    requires
        forall|i: int| 0 <= i < g.edge_list().len() ==> !edge_fires(#[trigger] g.edge_list()[i], current, values),
    ensures
        g.next_after(current, values) is None,
{
    lemma_no_firing_from(g.edge_list(), current, values, 0);
}

proof fn lemma_no_firing_from(
    edges: Seq<Edge>,
    current: Seq<char>,
    values: Map<Seq<char>, JsonValue>,
    i: int,
)
    requires
        0 <= i,
        forall|j: int| 0 <= j < edges.len() ==> !edge_fires(#[trigger] edges[j], current, values),
    ensures
        first_firing(edges, current, values, i) is None,
    decreases edges.len() - i,
{
    if i < edges.len() {
        lemma_no_firing_from(edges, current, values, i + 1);
    }
}

/// A jump to a task that the graph does not hold fails with `TaskNotFound`
/// naming that task.
pub proof fn law_goto_missing_task(
    g: Graph,
    executed: Seq<char>,
    values: Map<Seq<char>, JsonValue>,
    result: TaskResult,
    target: String,
)
    requires
        result.next_action == NextAction::GoTo(target),
        !g.has_task(target@),
    ensures
        g.step_outcome(executed, values, result) == Err::<StepOutcome, GraphError>(
            GraphError::TaskNotFound(target),
        ),
{
}

/// `End` completes the step and leaves the session at the task that ran, so
/// that the next step runs that task again.
pub proof fn law_end_stays_at_task(
    g: Graph,
    executed: Seq<char>,
    values: Map<Seq<char>, JsonValue>,
    result: TaskResult,
)
    requires
        result.next_action == NextAction::End,
    ensures
        g.step_target(executed, values, result.next_action) == Some(executed),
        g.step_outcome(executed, values, result) == Ok::<StepOutcome, GraphError>(
            StepOutcome::Done(
                ExecutionResult { response: result.response, status: ExecutionStatus::Completed },
            ),
        ),
{
}

/// Within a chain of `ContinueAndExecute` steps, the session moves to the task
/// the edges lead to under the values the earlier task left.
pub proof fn law_chain_moves_along_edges(
    g: Graph,
    executed: Seq<char>,
    values: Map<Seq<char>, JsonValue>,
    result: TaskResult,
)
    requires
        g.step_outcome(executed, values, result) == Ok::<StepOutcome, GraphError>(StepOutcome::RunNext),
    ensures
        result.next_action == NextAction::ContinueAndExecute,
        g.step_target(executed, values, result.next_action) == g.next_after(executed, values),
{
}

/// Two sessions with the same fields and context, such as a session and its
/// copy restored from storage, step alike: the same task result leads to the
/// same outcome and the same next task.
pub proof fn law_copies_step_alike(g: Graph, a: Session, b: Session, result: TaskResult)
    requires
        same_session(a, b),
    ensures
        g.step_outcome(a.current_task_id@, a.context.values(), result) == g.step_outcome(
            b.current_task_id@,
            b.context.values(),
            result,
        ),
        g.step_target(a.current_task_id@, a.context.values(), result.next_action) == g.step_target(
            b.current_task_id@,
            b.context.values(),
            result.next_action,
        ),
{
}

/// A session laid out for serialization and built back from that layout
/// holds what it held before, and so steps as the session it came from does
/// against the same graph.
pub proof fn law_session_round_trip(g: Graph, s: Session, d: SessionData, r: Session, result: TaskResult)
    requires
        d.id == s.id,
        d.graph_id == s.graph_id,
        d.current_task_id == s.current_task_id,
        d.status_message == s.status_message,
        keys_unique(d.context.data@),
        entries_map(d.context.data@) == s.context.values(),
        d.context.chat_history@ == s.context.history()@,
        d.context.chat_history.bound() == s.context.history().bound(),
        r.id == d.id,
        r.graph_id == d.graph_id,
        r.current_task_id == d.current_task_id,
        r.status_message == d.status_message,
        r.context.values() == entries_map(d.context.data@),
        r.context.history() == d.context.chat_history,
    ensures
        same_session(r, s),
        g.step_outcome(r.current_task_id@, r.context.values(), result) == g.step_outcome(
            s.current_task_id@,
            s.context.values(),
            result,
        ),
        g.step_target(r.current_task_id@, r.context.values(), result.next_action) == g.step_target(
            s.current_task_id@,
            s.context.values(),
            result.next_action,
        ),
{
}

} // verus!
