use graph_flow::context::Context;
use graph_flow::error::GraphError;
use graph_flow::graph::{EdgeCondition, ExecutionResult, ExecutionStatus, Graph, GraphBuilder, StepOutcome};
use graph_flow::json::JsonValue;
use graph_flow::session::Session;
use graph_flow::task::{NextAction, TaskResult};

type Body = dyn Fn(&str, &mut Context) -> Result<TaskResult, GraphError>;

/// Runs one step as a host does: check the task, run its body, apply the
/// result, and go on at once while the engine asks for it.
fn execute_step(graph: &Graph, session: &mut Session, body: &Body) -> Result<ExecutionResult, GraphError> {
    loop {
        graph.begin_step(session)?;
        let task_id = session.current_task_id.clone();
        let result = body(&task_id, &mut session.context)?;
        match graph.finish_step(session, result)? {
            StepOutcome::Done(r) => return Ok(r),
            StepOutcome::RunNext => {}
        }
    }
}

fn text(s: &str) -> JsonValue {
    JsonValue::Text(s.to_string())
}

fn linear_graph() -> Graph {
    GraphBuilder::new("linear")
        .add_task("A")
        .add_task("B")
        .add_task("C")
        .add_edge("A", "B")
        .add_edge("B", "C")
        .build()
}

fn tagging_body(actions: [NextAction; 3]) -> impl Fn(&str, &mut Context) -> Result<TaskResult, GraphError> {
    move |id: &str, ctx: &mut Context| {
        ctx.set(&format!("tag_{}", id), JsonValue::Bool(true));
        let action = match id {
            "A" => actions[0].clone(),
            "B" => actions[1].clone(),
            _ => actions[2].clone(),
        };
        Ok(TaskResult::new(Some(format!("response {}", id)), action))
    }
}

#[test]
fn test_simple_graph_execution() {
    let graph = GraphBuilder::new("test_graph").add_task("test_task").build();
    let mut session = Session::new_from_task("s".to_string(), "test_task");
    session.context.set("input", text("Hello, World!"));

    let body = |_: &str, ctx: &mut Context| {
        let input = match ctx.get("input") {
            Some(JsonValue::Text(s)) => s,
            _ => String::new(),
        };
        ctx.set("output", JsonValue::Text(format!("Processed: {}", input)));
        Ok(TaskResult::new(Some("Task completed".to_string()), NextAction::End))
    };
    let result = execute_step(&graph, &mut session, &body).unwrap();

    assert!(result.response.is_some());
    assert_eq!(result.status, ExecutionStatus::Completed);
    assert_eq!(session.context.get("output"), Some(text("Processed: Hello, World!")));
}

#[test]
fn scenario_linear_continue() {
    let graph = linear_graph();
    let mut session = Session::new_from_task("s".to_string(), "A");
    let body = tagging_body([NextAction::Continue, NextAction::Continue, NextAction::End]);

    let r1 = execute_step(&graph, &mut session, &body).unwrap();
    assert_eq!(session.current_task_id, "B");
    assert_eq!(r1.status, ExecutionStatus::WaitingForInput);
    assert_eq!(r1.response.as_deref(), Some("response A"));

    let r2 = execute_step(&graph, &mut session, &body).unwrap();
    assert_eq!(session.current_task_id, "C");
    assert_eq!(r2.status, ExecutionStatus::WaitingForInput);
    assert_eq!(r2.response.as_deref(), Some("response B"));

    let r3 = execute_step(&graph, &mut session, &body).unwrap();
    assert_eq!(session.current_task_id, "C");
    assert_eq!(r3.status, ExecutionStatus::Completed);
    assert_eq!(r3.response.as_deref(), Some("response C"));

    // End leaves no terminal mark: the next step runs the last task again.
    session.context.remove("tag_C");
    let r4 = execute_step(&graph, &mut session, &body).unwrap();
    assert_eq!(session.current_task_id, "C");
    assert_eq!(r4.status, ExecutionStatus::Completed);
    assert_eq!(session.context.get("tag_C"), Some(JsonValue::Bool(true)));
}

#[test]
fn scenario_continue_and_execute_chain() {
    let graph = linear_graph();
    let mut session = Session::new_from_task("s".to_string(), "A");
    let body = |id: &str, ctx: &mut Context| {
        // Each task sees the tags of the tasks before it in the chain.
        let seen = ["A", "B"].iter().take_while(|t| **t != id).all(|t| ctx.get(&format!("tag_{}", t)).is_some());
        assert!(seen);
        ctx.set(&format!("tag_{}", id), JsonValue::Bool(true));
        let action = if id == "C" { NextAction::End } else { NextAction::ContinueAndExecute };
        Ok(TaskResult::new(Some(format!("response {}", id)), action))
    };
    let r = execute_step(&graph, &mut session, &body).unwrap();
    assert_eq!(r.status, ExecutionStatus::Completed);
    assert_eq!(r.response.as_deref(), Some("response C"));
    for t in ["tag_A", "tag_B", "tag_C"] {
        assert_eq!(session.context.get(t), Some(JsonValue::Bool(true)));
    }
    assert_eq!(session.current_task_id, "C");
}

#[test]
fn scenario_conditional_edge() {
    let graph = GraphBuilder::new("claims")
        .add_task("Classify")
        .add_task("Car")
        .add_task("Apartment")
        .add_conditional_edge(
            "Classify",
            "Car",
            EdgeCondition::TextEquals { key: "kind".to_string(), text: "car".to_string() },
        )
        .add_edge("Classify", "Apartment")
        .build();
    let mut session = Session::new_from_task("s".to_string(), "Classify");
    let body = |id: &str, ctx: &mut Context| match id {
        "Classify" => {
            ctx.set("kind", text("car"));
            Ok(TaskResult::move_to_next_direct())
        }
        other => {
            ctx.set("ran", text(other));
            Ok(TaskResult::new(None, NextAction::End))
        }
    };
    let r = execute_step(&graph, &mut session, &body).unwrap();
    assert_eq!(r.status, ExecutionStatus::Completed);
    assert_eq!(session.context.get("ran"), Some(text("Car")));
    assert_eq!(session.current_task_id, "Car");
}

#[test]
fn unconditional_edge_first_shadows_conditional() {
    let graph = GraphBuilder::new("g")
        .add_task("X")
        .add_task("Y")
        .add_task("Z")
        .add_edge("X", "Z")
        .add_conditional_edge("X", "Y", EdgeCondition::Flag { key: "go".to_string() })
        .build();
    let mut ctx = Context::new();
    ctx.set("go", JsonValue::Bool(true));
    assert_eq!(graph.find_next_task("X", &ctx), Some("Z".to_string()));
}

#[test]
fn scenario_wait_for_input_and_resume() {
    let graph = GraphBuilder::new("ask").add_task("Ask").build();
    let mut session = Session::new_from_task("s".to_string(), "Ask");
    let body = |_: &str, ctx: &mut Context| {
        let seen = ctx.get("user_input");
        ctx.set("seen", seen.unwrap_or(JsonValue::Null));
        Ok(TaskResult::new(Some("question".to_string()), NextAction::WaitForInput))
    };
    let r = execute_step(&graph, &mut session, &body).unwrap();
    assert_eq!(session.current_task_id, "Ask");
    assert_eq!(r.status, ExecutionStatus::WaitingForInput);

    session.context.set("user_input", text("42"));
    execute_step(&graph, &mut session, &body).unwrap();
    assert_eq!(session.context.get("seen"), Some(text("42")));
}

#[test]
fn find_next_task_without_matching_edge_is_none() {
    let graph = GraphBuilder::new("g")
        .add_task("a")
        .add_task("b")
        .add_conditional_edge("a", "b", EdgeCondition::Flag { key: "ready".to_string() })
        .build();
    let mut ctx = Context::new();
    assert_eq!(graph.find_next_task("a", &ctx), None);
    assert_eq!(graph.find_next_task("b", &ctx), None);
    ctx.set("ready", JsonValue::Bool(false));
    assert_eq!(graph.find_next_task("a", &ctx), None);
    ctx.set("ready", JsonValue::Bool(true));
    assert_eq!(graph.find_next_task("a", &ctx), Some("b".to_string()));
    // The same inputs give the same answer.
    assert_eq!(graph.find_next_task("a", &ctx), graph.find_next_task("a", &ctx));
}

#[test]
fn negated_condition_takes_the_other_branch() {
    let is_car = EdgeCondition::TextEquals { key: "t".to_string(), text: "car".to_string() };
    let graph = GraphBuilder::new("g")
        .add_task("c")
        .add_task("car")
        .add_task("flat")
        .add_conditional_edge("c", "car", is_car.clone())
        .add_conditional_edge("c", "flat", EdgeCondition::Not(Box::new(is_car)))
        .build();
    let mut ctx = Context::new();
    assert_eq!(graph.find_next_task("c", &ctx), Some("flat".to_string()));
    ctx.set("t", text("car"));
    assert_eq!(graph.find_next_task("c", &ctx), Some("car".to_string()));
}

#[test]
fn goto_missing_task_is_task_not_found() {
    let graph = GraphBuilder::new("g").add_task("a").build();
    let mut session = Session::new_from_task("s".to_string(), "a");
    let result = TaskResult::new_with_status(None, NextAction::GoTo("nowhere".to_string()), Some("m".to_string()));
    let r = graph.finish_step(&mut session, result);
    assert_eq!(r.unwrap_err(), GraphError::TaskNotFound("nowhere".to_string()));
    assert_eq!(session.current_task_id, "a");
    assert_eq!(session.status_message, None);
}

#[test]
fn goto_existing_task_moves_without_running() {
    let graph = GraphBuilder::new("g").add_task("a").add_task("b").build();
    let mut session = Session::new_from_task("s".to_string(), "a");
    let result = TaskResult::new(Some("r".to_string()), NextAction::GoTo("b".to_string()));
    match graph.finish_step(&mut session, result).unwrap() {
        StepOutcome::Done(r) => {
            assert_eq!(r.status, ExecutionStatus::WaitingForInput);
            assert_eq!(r.response.as_deref(), Some("r"));
        }
        StepOutcome::RunNext => panic!("GoTo does not run the target at once"),
    }
    assert_eq!(session.current_task_id, "b");
}

#[test]
fn go_back_stays_and_waits() {
    let graph = GraphBuilder::new("g").add_task("a").add_task("b").add_edge("a", "b").build();
    let mut session = Session::new_from_task("s".to_string(), "a");
    let r = graph.finish_step(&mut session, TaskResult::new(None, NextAction::GoBack)).unwrap();
    assert!(matches!(r, StepOutcome::Done(ExecutionResult { status: ExecutionStatus::WaitingForInput, .. })));
    assert_eq!(session.current_task_id, "a");
}

#[test]
fn continue_without_edge_stays_and_status_is_copied() {
    let graph = GraphBuilder::new("g").add_task("a").build();
    let mut session = Session::new_from_task("s".to_string(), "a");
    let result = TaskResult::new_with_status(None, NextAction::Continue, Some("halfway".to_string()));
    graph.finish_step(&mut session, result).unwrap();
    assert_eq!(session.current_task_id, "a");
    assert_eq!(session.status_message.as_deref(), Some("halfway"));
    let r = graph.finish_step(&mut session, TaskResult::move_to_next_direct()).unwrap();
    assert!(matches!(r, StepOutcome::Done(ExecutionResult { status: ExecutionStatus::WaitingForInput, .. })));
    assert_eq!(session.status_message, None);
}

#[test]
fn begin_step_on_unknown_task_fails() {
    let graph = GraphBuilder::new("g").add_task("a").build();
    let session = Session::new_from_task("s".to_string(), "zzz");
    assert_eq!(graph.begin_step(&session), Err(GraphError::TaskNotFound("zzz".to_string())));
    let ok = Session::new_from_task("s".to_string(), "a");
    assert_eq!(graph.begin_step(&ok), Ok(()));
}

#[test]
fn builder_start_task_rules() {
    let graph = GraphBuilder::new("g").add_task("first").add_task("second").build();
    assert_eq!(graph.start_task_id(), Some("first".to_string()));
    let graph = GraphBuilder::new("g").add_task("first").add_task("second").set_start_task("second").build();
    assert_eq!(graph.start_task_id(), Some("second".to_string()));
    let graph = GraphBuilder::new("g").add_task("first").set_start_task("missing").build();
    assert_eq!(graph.start_task_id(), Some("first".to_string()));
    assert_eq!(Graph::new("empty").start_task_id(), None);
    assert!(graph.contains_task("first"));
    assert!(!graph.contains_task("missing"));
    assert_eq!(graph.id, "g");
}

#[test]
fn graph_mutators_match_builder() {
    let mut graph = Graph::new("g");
    graph.add_task("a");
    graph.add_task("b");
    graph.add_task("a");
    graph.set_start_task("b");
    graph.add_edge("a", "b");
    let mut ctx = Context::new();
    assert_eq!(graph.start_task_id(), Some("b".to_string()));
    assert_eq!(graph.find_next_task("a", &ctx), Some("b".to_string()));
    graph.add_conditional_edge("b", "a", EdgeCondition::Flag { key: "back".to_string() });
    ctx.set("back", JsonValue::Bool(true));
    assert_eq!(graph.find_next_task("b", &ctx), Some("a".to_string()));
}

#[test]
fn follow_up_of_run_to_completion_mode() {
    let graph = GraphBuilder::new("g").add_task("a").add_task("b").add_edge("a", "b").build();
    let ctx = Context::new();
    let silent = TaskResult::move_to_next();
    assert_eq!(graph.follow_up("a", &silent, &ctx), Ok(Some("b".to_string())));
    let talking = TaskResult::new(Some("hi".to_string()), NextAction::Continue);
    assert_eq!(graph.follow_up("a", &talking, &ctx), Ok(None));
    let jump = TaskResult::new(None, NextAction::GoTo("b".to_string()));
    assert_eq!(graph.follow_up("a", &jump, &ctx), Ok(Some("b".to_string())));
    let bad = TaskResult::new(None, NextAction::GoTo("c".to_string()));
    assert_eq!(graph.follow_up("a", &bad, &ctx), Err(GraphError::TaskNotFound("c".to_string())));
    let end = TaskResult::new(None, NextAction::End);
    assert_eq!(graph.follow_up("a", &end, &ctx), Ok(None));
}

#[test]
fn task_result_constructors() {
    let r = TaskResult::new(Some("x".to_string()), NextAction::WaitForInput);
    assert_eq!(r.task_id, "");
    assert_eq!(r.status_message, None);
    let r = TaskResult::new_with_status(None, NextAction::End, Some("s".to_string()));
    assert_eq!(r.status_message.as_deref(), Some("s"));
    assert_eq!(TaskResult::move_to_next().next_action, NextAction::Continue);
    assert_eq!(TaskResult::move_to_next_direct().next_action, NextAction::ContinueAndExecute);
    assert_eq!(TaskResult::move_to_next().stamped("t").task_id, "t");
}

#[test]
fn branch_routes_on_condition() {
    let graph = GraphBuilder::new("recommendation_flow")
        .add_task("answer")
        .add_task("validate")
        .add_task("deliver")
        .add_edge("answer", "validate")
        .add_branch("validate", EdgeCondition::Flag { key: "validation_passed".to_string() }, "deliver", "answer")
        .build();
    let mut ctx = Context::new();
    assert_eq!(graph.find_next_task("validate", &ctx), Some("answer".to_string()));
    ctx.set("validation_passed", JsonValue::Bool(true));
    assert_eq!(graph.find_next_task("validate", &ctx), Some("deliver".to_string()));
    let mut g = Graph::new("g");
    g.add_task("a");
    g.add_task("b");
    g.add_task("c");
    g.add_branch("a", EdgeCondition::TextEquals { key: "k".to_string(), text: "v".to_string() }, "b", "c");
    assert_eq!(g.find_next_task("a", &Context::new()), Some("c".to_string()));
}
