use vstd::prelude::*;
use crate::errors::ServiceError;

verus! {

/// Lifecycle states of a task, listed in the order they are reached.
/// `Finished` is terminal; no state ever regresses.
#[derive(Clone, Copy, Debug, PartialEq, Eq, Structural)]
pub enum TaskStatus {
    Created,
    DataAssigned,
    Approved,
    Staged,
    Running,
    Finished,
}

/// Position of a status in the lifecycle order; also its wire number.
pub open spec fn status_rank(s: TaskStatus) -> int {
    match s {
        TaskStatus::Created => 0,
        TaskStatus::DataAssigned => 1,
        TaskStatus::Approved => 2,
        TaskStatus::Staged => 3,
        TaskStatus::Running => 4,
        TaskStatus::Finished => 5,
    }
}

/// `a` comes no later than `b` in the task lifecycle.
pub open spec fn status_le(a: TaskStatus, b: TaskStatus) -> bool {
    status_rank(a) <= status_rank(b)
}

/// Decodes a wire number into a task status; exactly the numbers 0 through 5
/// are valid, in lifecycle order.
pub fn i32_to_task_status(status: i32) -> (r: Result<TaskStatus, ServiceError>)
    ensures
        r is Ok <==> 0 <= status <= 5,
        r matches Ok(s) ==> status_rank(s) == status,
        r is Err ==> r == Err::<TaskStatus, ServiceError>(ServiceError::InvalidRequest),
{
    match status {
        0 => Ok(TaskStatus::Created),
        1 => Ok(TaskStatus::DataAssigned),
        2 => Ok(TaskStatus::Approved),
        3 => Ok(TaskStatus::Staged),
        4 => Ok(TaskStatus::Running),
        5 => Ok(TaskStatus::Finished),
        _ => Err(ServiceError::InvalidRequest),
    }
}

/// Encodes a task status as its wire number.
pub fn i32_from_task_status(status: TaskStatus) -> (r: i32)
    ensures
        r == status_rank(status),
{
    match status {
        TaskStatus::Created => 0,
        TaskStatus::DataAssigned => 1,
        TaskStatus::Approved => 2,
        TaskStatus::Staged => 3,
        TaskStatus::Running => 4,
        TaskStatus::Finished => 5,
    }
}

} // verus!
