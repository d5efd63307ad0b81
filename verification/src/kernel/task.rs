//! The rules of the task runtime that need no thread to state: what a
//! joined task hands back, and how a periodic task is paced.
//!
//! A task is one thread that runs its body to the end. Starting and joining
//! the thread is the caller's part; what is decided about it is decided
//! here.

use vstd::prelude::*;
use vstd::string::StringExecFns;
use crate::error::{RocketError, RocketResult};

verus! {

/// How a task's thread came to its end.
pub enum TaskEnd {
    /// The body ran to the end and returned this.
    Returned(RocketResult<()>),
    /// The body panicked.
    Panicked,
}

/// What joining a task returns: the body's own result if it returned one,
/// and a runtime fault if the body panicked. One task's panic is seen
/// nowhere but here.
pub fn join_result(end: TaskEnd) -> (r: RocketResult<()>)
    ensures
        match end {
            TaskEnd::Returned(result) => r == result,
            TaskEnd::Panicked => r matches Err(RocketError::Kernel(text)) && text@
                == "Task panicked"@,
        },
{
    match end {
        TaskEnd::Returned(result) => result,
        TaskEnd::Panicked => Err(RocketError::Kernel(String::from_str("Task panicked"))),
    }
}

/// What a periodic task does once its work for one period is done.
#[derive(Debug, Clone, Copy, PartialEq, Eq)]
pub enum Pacing {
    /// Wait this long, then begin the next period.
    Wait(u64),
    /// The work took the whole period or more: begin the next one at once.
    Overrun,
}

/// Paces one period of a periodic task. `period` is how long a period
/// lasts and `elapsed` how long its work took, in one unit of time. Work
/// that was quicker than the period is followed by a wait for the rest of
/// it. Work that was not is followed by no wait at all, and nothing is done
/// to catch up.
pub fn pace(period: u64, elapsed: u64) -> (r: Pacing)
    ensures
        elapsed < period ==> r == Pacing::Wait((period - elapsed) as u64),
        elapsed >= period ==> r == Pacing::Overrun,
{
    if elapsed < period {
        Pacing::Wait(period - elapsed)
    } else {
        Pacing::Overrun
    }
}

} // verus!
