use rustycap::error::SolverError;
use rustycap::models::{CreateTaskResponse, TaskInfo, TaskResultResponse};
use rustycap::{SolveAction, SolveEvent, SolveState, Solver};

fn result_response(
    status: &str,
    error_description: Option<&str>,
    solution: Option<&str>,
) -> TaskResultResponse {
    TaskResultResponse {
        error_id: 0,
        status: status.to_string(),
        error_description: error_description.map(str::to_string),
        solution: solution.map(str::to_string),
    }
}

#[test]
fn interpret_done_with_solution() {
    let r = result_response("DONE", None, Some("42")).interpret();
    assert_eq!(r, Ok(TaskInfo::Done("42".to_string())));
}

#[test]
fn interpret_done_without_solution_is_soft_failure() {
    let r = result_response("DONE", None, None).interpret();
    assert_eq!(r, Ok(TaskInfo::Failed("Invalid response".to_string())));
}

#[test]
fn interpret_failed_with_description() {
    let r = result_response("FAILED", Some("bad proxy"), None).interpret();
    assert_eq!(r, Ok(TaskInfo::Failed("bad proxy".to_string())));
}

#[test]
fn interpret_failed_without_description() {
    let r = result_response("FAILED", None, None).interpret();
    assert_eq!(r, Ok(TaskInfo::Failed("errorDescription was null".to_string())));
}

#[test]
fn interpret_does_not_exist() {
    let r = result_response("DOES_NOT_EXIST", None, None).interpret();
    assert_eq!(r, Ok(TaskInfo::DoesNotExist));
}

#[test]
fn interpret_processing() {
    let r = result_response("PROCESSING", None, None).interpret();
    assert_eq!(r, Ok(TaskInfo::Processing));
}

#[test]
fn interpret_unknown_status_is_hard_error() {
    let r = result_response("WEIRD", None, None).interpret();
    assert_eq!(r, Err(SolverError::UnknownStatus("WEIRD".to_string())));
}

/// Drives the machine over a scripted poll sequence and returns the final
/// state with the number of status queries and of delays asked for.
fn run_scripted(solver: &Solver, created: CreateTaskResponse, polls: &[TaskInfo]) -> (SolveState, usize, usize) {
    let (state, action) = solver.start();
    assert_eq!(action, SolveAction::Submit);
    let mut queries: usize = 0;
    let mut delays: usize = 0;
    let (mut state, mut action) = solver.solve_step(state, SolveEvent::Created(created));
    let mut next_poll = polls.iter();
    loop {
        match action {
            SolveAction::Query { delay_ms } => {
                queries += 1;
                if delay_ms.is_some() {
                    delays += 1;
                }
                let info = next_poll.next().expect("script exhausted").clone();
                let stepped = solver.solve_step(state, SolveEvent::Polled(info));
                state = stepped.0;
                action = stepped.1;
            }
            SolveAction::Stop => return (state, queries, delays),
            SolveAction::Submit => panic!("submit asked for twice"),
        }
    }
}

#[test]
fn scripted_run_terminates_after_three_queries_and_two_delays() {
    let solver = Solver::new("test-key".to_string());
    let created = CreateTaskResponse { error_id: 0, task_id: "t-1".to_string() };
    let polls = [
        TaskInfo::Processing,
        TaskInfo::Processing,
        TaskInfo::Done("X".to_string()),
    ];
    let (state, queries, delays) = run_scripted(&solver, created, &polls);
    assert_eq!(state, SolveState::Succeeded("X".to_string()));
    assert_eq!(queries, 3);
    assert_eq!(delays, 2);
}

#[test]
fn scripted_run_no_sleep_mode_never_delays() {
    let solver = Solver::new("test-key".to_string()).no_sleep();
    let created = CreateTaskResponse { error_id: 0, task_id: "t-1".to_string() };
    let polls = [
        TaskInfo::Processing,
        TaskInfo::Processing,
        TaskInfo::Done("X".to_string()),
    ];
    let (state, queries, delays) = run_scripted(&solver, created, &polls);
    assert_eq!(state, SolveState::Succeeded("X".to_string()));
    assert_eq!(queries, 3);
    assert_eq!(delays, 0);
}

#[test]
fn scripted_run_failed_task_carries_reason() {
    let solver = Solver::new("k".to_string()).no_sleep();
    let created = CreateTaskResponse { error_id: 0, task_id: "t-2".to_string() };
    let polls = [TaskInfo::Processing, TaskInfo::Failed("bad proxy".to_string())];
    let (state, queries, _) = run_scripted(&solver, created, &polls);
    assert_eq!(state, SolveState::Failed(SolverError::TaskFailed("bad proxy".to_string())));
    assert_eq!(queries, 2);
}

#[test]
fn scripted_run_vanished_task_fails() {
    let solver = Solver::new("k".to_string()).no_sleep();
    let created = CreateTaskResponse { error_id: 0, task_id: "t-3".to_string() };
    let polls = [TaskInfo::DoesNotExist];
    let (state, _, _) = run_scripted(&solver, created, &polls);
    assert_eq!(state, SolveState::Failed(SolverError::TaskDoesNotExist));
}

#[test]
fn rejected_creation_fails_without_any_query() {
    let solver = Solver::new("k".to_string());
    let created = CreateTaskResponse { error_id: 7, task_id: String::new() };
    let (state, queries, delays) = run_scripted(&solver, created, &[]);
    assert_eq!(state, SolveState::Failed(SolverError::TaskCreationRejected(7)));
    assert_eq!(queries, 0);
    assert_eq!(delays, 0);
}

#[test]
fn builder_defaults_and_overrides() {
    let solver = Solver::new("key".to_string());
    assert_eq!(solver.client_key, "key");
    assert_eq!(solver.delay, 2500);
    assert!(solver.use_sleep);
    let solver = solver.delay(100).no_sleep();
    assert_eq!(solver.delay, 100);
    assert!(!solver.use_sleep);
}

#[test]
fn processing_poll_carries_configured_delay() {
    let solver = Solver::new("k".to_string()).delay(100);
    let state = SolveState::Polling("t".to_string());
    let (state, action) = solver.solve_step(state, SolveEvent::Polled(TaskInfo::Processing));
    assert_eq!(state, SolveState::Polling("t".to_string()));
    assert_eq!(action, SolveAction::Query { delay_ms: Some(100) });
}
