//! The data shapes exchanged with the solving service, and the
//! interpretation of a polled task result.

use vstd::prelude::*;
use crate::error::SolverError;
use std::collections::HashMap;

verus! {

/// The lifecycle state of a task, recomputed on every poll.
#[derive(Debug, Clone, PartialEq, Eq)]
pub enum TaskInfo {
    /// The task is still being worked on.
    Processing,
    /// The task ended unsuccessfully; carries the reason.
    Failed(String),
    /// The service does not know the task.
    DoesNotExist,
    /// The task was solved; carries the solution string.
    Done(String),
}

/// The health of one task type as reported by the status endpoint.
#[derive(Debug, Clone, Copy, PartialEq, Eq)]
pub enum TaskStatus {
    Unavailable,
    Instable,
    Operational,
}

/// The answer to a create-task request.
#[derive(Debug, Clone, PartialEq, Eq)]
pub struct CreateTaskResponse {
    /// Zero signals acceptance; any other value signals rejection.
    pub error_id: usize,
    /// The identifier to poll for the task's result.
    pub task_id: String,
}

/// The raw answer to a task-result request, before interpretation.
#[derive(Debug, Clone, PartialEq, Eq)]
pub struct TaskResultResponse {
    pub error_id: usize,
    /// One of `"DONE"`, `"FAILED"`, `"DOES_NOT_EXIST"`, `"PROCESSING"`,
    /// or something unknown.
    pub status: String,
    pub error_description: Option<String>,
    pub solution: Option<String>,
}

/// One reported problem of the service.
#[derive(Debug, Clone, PartialEq, Eq)]
pub struct Problem {
    pub task: String,
    pub title: String,
    pub message: String,
}

/// The answer of the unauthenticated status endpoint: the health of each
/// task type, and an ordered list of problems.
#[derive(Debug, Clone)]
pub struct ServiceStatusResponse {
    pub tasks: HashMap<String, TaskStatus>,
    pub problems: Vec<Problem>,
}

impl TaskResultResponse {
    /// Interprets the raw `status` field as a [`TaskInfo`].
    ///
    /// `"DONE"` with a present solution is [`TaskInfo::Done`]; `"DONE"`
    /// without one is a soft failure. `"FAILED"` carries the service's
    /// description when present. Any status outside the known set is the
    /// hard error [`SolverError::UnknownStatus`].
    pub fn interpret(&self) -> (r: Result<TaskInfo, SolverError>)
        ensures
            self.status@ == "DONE"@ && self.solution is Some ==> r is Ok
                && r->Ok_0 is Done && r->Ok_0->Done_0 == self.solution->0,
            self.status@ == "DONE"@ && self.solution is None ==> r is Ok
                && r->Ok_0 is Failed && r->Ok_0->Failed_0@ == "Invalid response"@,
            self.status@ == "FAILED"@ && self.error_description is Some ==> r is Ok
                && r->Ok_0 is Failed && r->Ok_0->Failed_0 == self.error_description->0,
            self.status@ == "FAILED"@ && self.error_description is None ==> r is Ok
                && r->Ok_0 is Failed && r->Ok_0->Failed_0@ == "errorDescription was null"@,
            self.status@ == "DOES_NOT_EXIST"@ ==> r == Ok::<TaskInfo, SolverError>(TaskInfo::DoesNotExist),
            self.status@ == "PROCESSING"@ ==> r == Ok::<TaskInfo, SolverError>(TaskInfo::Processing),
            r is Err <==> !(self.status@ == "DONE"@ || self.status@ == "FAILED"@
                || self.status@ == "DOES_NOT_EXIST"@ || self.status@ == "PROCESSING"@),
            r is Err ==> r->Err_0 is UnknownStatus && r->Err_0->UnknownStatus_0@ == self.status@,
    {
        proof {
            reveal_strlit("DONE");
            reveal_strlit("FAILED");
            reveal_strlit("DOES_NOT_EXIST");
            reveal_strlit("PROCESSING");
            // The four known statuses have pairwise different lengths, so
            // at most one of the guards below can hold.
            assert("DONE"@.len() == 4);
            assert("FAILED"@.len() == 6);
            assert("DOES_NOT_EXIST"@.len() == 14);
            assert("PROCESSING"@.len() == 10);
        }
        if self.status == "DONE".to_owned() {
            match self.solution.as_ref() {
                Some(solution) => Ok(TaskInfo::Done(solution.clone())),
                None => Ok(TaskInfo::Failed("Invalid response".to_owned())),
            }
        } else if self.status == "FAILED".to_owned() {
            match self.error_description.as_ref() {
                Some(description) => Ok(TaskInfo::Failed(description.clone())),
                None => Ok(TaskInfo::Failed("errorDescription was null".to_owned())),
            }
        } else if self.status == "DOES_NOT_EXIST".to_owned() {
            Ok(TaskInfo::DoesNotExist)
        } else if self.status == "PROCESSING".to_owned() {
            Ok(TaskInfo::Processing)
        } else {
            Err(SolverError::UnknownStatus(self.status.clone()))
        }
    }
}

} // verus!
