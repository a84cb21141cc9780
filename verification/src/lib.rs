//! Client library for a remote captcha-solving service.
//!
//! A [`Solver`] holds the account key and polling configuration. Tasks are
//! built from the variants in [`tasks`], serialized into a flat tagged
//! document, and submitted to the service; the solver then polls the task's
//! status until a terminal state is reached. The decisions of that loop are
//! captured by [`Solver::solve_step`], a verified state machine; the
//! surrounding transport performs the actions it requests.

use vstd::prelude::*;
use crate::error::SolverError;
use crate::models::{CreateTaskResponse, TaskInfo};

pub mod error;
pub mod models;
pub mod props;
pub mod tasks;
pub mod image;

verus! {

/// Configuration of one solving session: the account key and the polling
/// policy of the create-and-wait loop.
pub struct Solver {
    /// The account credential sent with every authenticated request.
    pub client_key: String,
    /// Milliseconds to wait after a poll that found the task still processing.
    pub delay: u64,
    /// Whether the create-and-wait loop suspends between polls at all.
    pub use_sleep: bool,
}

impl Solver {
    /// Creates a solver for the given account key, polling every 2500 ms.
    pub fn new(key: String) -> (r: Self)
        ensures
            r.client_key == key,
            r.delay == 2500u64,
            r.use_sleep == true,
    {
        Self { client_key: key, delay: 2500, use_sleep: true }
    }

    /// Configures the solver to never suspend between polls.
    pub fn no_sleep(self) -> (r: Self)
        ensures
            r.client_key == self.client_key,
            r.delay == self.delay,
            r.use_sleep == false,
    {
        Self { use_sleep: false, ..self }
    }

    /// Sets the milliseconds to wait after each poll that found the task
    /// still processing.
    pub fn delay(self, delay: u64) -> (r: Self)
        ensures
            r.client_key == self.client_key,
            r.delay == delay,
            r.use_sleep == self.use_sleep,
    {
        Self { delay, ..self }
    }
}

/// A state of the create-and-wait loop. `Succeeded` and `Failed` are the
/// terminal states; no polling happens once one is reached.
#[derive(Debug, Clone, PartialEq, Eq)]
pub enum SolveState {
    /// The task has not been submitted yet.
    Submitting,
    /// The task was accepted; its id is being polled.
    Polling(String),
    /// A poll reported the task done; carries the solution.
    Succeeded(String),
    /// Submission was rejected, or a poll ended the task unsuccessfully.
    Failed(SolverError),
}

/// What the transport observed and hands back to the state machine.
#[derive(Debug, Clone, PartialEq, Eq)]
pub enum SolveEvent {
    /// The answer of the create-task call.
    Created(CreateTaskResponse),
    /// The interpreted answer of one status poll.
    Polled(TaskInfo),
}

/// What the state machine asks the transport to do next.
#[derive(Debug, Clone, PartialEq, Eq)]
pub enum SolveAction {
    /// Serialize the task and post it to the create-task endpoint.
    Submit,
    /// Poll the task's status, first suspending for the given
    /// milliseconds if there are any.
    Query { delay_ms: Option<u64> },
    /// A terminal state is reached; stop.
    Stop,
}

impl Solver {
    /// The state and action that open a create-and-wait run.
    pub fn start(&self) -> (r: (SolveState, SolveAction))
        ensures
            r == (SolveState::Submitting, SolveAction::Submit),
    {
        (SolveState::Submitting, SolveAction::Submit)
    }

    /// What [`Solver::solve_step`] returns, as a mathematical function.
    pub open spec fn spec_solve_step(&self, state: SolveState, event: SolveEvent) -> (
        SolveState,
        SolveAction,
    ) {
        match (state, event) {
            (SolveState::Submitting, SolveEvent::Created(resp)) => {
                if resp.error_id == 0 {
                    (
                        SolveState::Polling(resp.task_id),
                        SolveAction::Query { delay_ms: None },
                    )
                } else {
                    (
                        SolveState::Failed(SolverError::TaskCreationRejected(resp.error_id)),
                        SolveAction::Stop,
                    )
                }
            },
            (SolveState::Polling(task_id), SolveEvent::Polled(info)) => {
                match info {
                    TaskInfo::Processing => (
                        SolveState::Polling(task_id),
                        SolveAction::Query {
                            delay_ms: if self.use_sleep {
                                Some(self.delay)
                            } else {
                                None
                            },
                        },
                    ),
                    TaskInfo::Done(solution) => (SolveState::Succeeded(solution), SolveAction::Stop),
                    TaskInfo::Failed(reason) => (
                        SolveState::Failed(SolverError::TaskFailed(reason)),
                        SolveAction::Stop,
                    ),
                    TaskInfo::DoesNotExist => (
                        SolveState::Failed(SolverError::TaskDoesNotExist),
                        SolveAction::Stop,
                    ),
                }
            },
            (state, _) => (state, SolveAction::Stop),
        }
    }

    /// One decision of the create-and-wait loop: from the current state
    /// and the event the transport observed, the next state and the next
    /// action. Submission with a non-zero `error_id` fails the run; a
    /// poll keeps polling on `Processing` (suspending only when sleeping
    /// is enabled) and otherwise ends the run with the solution or the
    /// failure. An event that does not belong to the state changes
    /// nothing and stops.
    pub fn solve_step(&self, state: SolveState, event: SolveEvent) -> (r: (SolveState, SolveAction))
        ensures
            r == self.spec_solve_step(state, event),
    {
        match (state, event) {
            (SolveState::Submitting, SolveEvent::Created(resp)) => {
                if resp.error_id == 0 {
                    (
                        SolveState::Polling(resp.task_id),
                        SolveAction::Query { delay_ms: None },
                    )
                } else {
                    (
                        SolveState::Failed(SolverError::TaskCreationRejected(resp.error_id)),
                        SolveAction::Stop,
                    )
                }
            },
            (SolveState::Polling(task_id), SolveEvent::Polled(info)) => {
                match info {
                    TaskInfo::Processing => (
                        SolveState::Polling(task_id),
                        SolveAction::Query {
                            delay_ms: if self.use_sleep {
                                Some(self.delay)
                            } else {
                                None
                            },
                        },
                    ),
                    TaskInfo::Done(solution) => (SolveState::Succeeded(solution), SolveAction::Stop),
                    TaskInfo::Failed(reason) => (
                        SolveState::Failed(SolverError::TaskFailed(reason)),
                        SolveAction::Stop,
                    ),
                    TaskInfo::DoesNotExist => (
                        SolveState::Failed(SolverError::TaskDoesNotExist),
                        SolveAction::Stop,
                    ),
                }
            },
            (other, _) => (other, SolveAction::Stop),
        }
    }

    /// The state after stepping through a whole sequence of events.
    pub open spec fn spec_run(&self, state: SolveState, events: Seq<SolveEvent>) -> SolveState
        decreases events.len(),
    {
        if events.len() == 0 {
            state
        } else {
            self.spec_run(self.spec_solve_step(state, events[0]).0, events.drop_first())
        }
    }

    /// How many polls the machine asks for while stepping through a
    /// sequence of events.
    pub open spec fn spec_query_count(&self, state: SolveState, events: Seq<SolveEvent>) -> nat
        decreases events.len(),
    {
        if events.len() == 0 {
            0
        } else {
            let (next, action) = self.spec_solve_step(state, events[0]);
            (if action is Query {
                1nat
            } else {
                0nat
            }) + self.spec_query_count(next, events.drop_first())
        }
    }

    /// A terminal state absorbs every event: the state stays, and the
    /// machine only ever asks to stop.
    pub proof fn lemma_terminal_absorbs(&self, state: SolveState, event: SolveEvent)
        requires
            state is Succeeded || state is Failed,
        ensures
            self.spec_solve_step(state, event) == (state, SolveAction::Stop),
    {
    }

    /// From a terminal state, no sequence of events moves the machine or
    /// makes it poll.
    pub proof fn lemma_terminal_no_queries(&self, state: SolveState, events: Seq<SolveEvent>)
        requires
            state is Succeeded || state is Failed,
        ensures
            self.spec_run(state, events) == state,
            self.spec_query_count(state, events) == 0,
        decreases events.len(),
    {
        if events.len() > 0 {
            self.lemma_terminal_absorbs(state, events[0]);
            self.lemma_terminal_no_queries(state, events.drop_first());
        }
    }

    /// A rejected submission fails the run at once with the rejection's
    /// error id, and the task's status is never queried, whatever events
    /// may follow.
    pub proof fn lemma_rejected_creation_never_polls(
        &self,
        resp: CreateTaskResponse,
        events: Seq<SolveEvent>,
    )
        requires
            resp.error_id != 0,
        ensures
            ({
                let (state, action) = self.spec_solve_step(
                    SolveState::Submitting,
                    SolveEvent::Created(resp),
                );
                &&& state == SolveState::Failed(SolverError::TaskCreationRejected(resp.error_id))
                &&& action == SolveAction::Stop
                &&& self.spec_query_count(state, events) == 0
                &&& self.spec_run(state, events) == state
            }),
    {
        let (state, action) = self.spec_solve_step(SolveState::Submitting, SolveEvent::Created(resp));
        self.lemma_terminal_no_queries(state, events);
    }
}

} // verus!
