//! Plain enumerations of execution plans.
use vstd::prelude::*;

verus! {

/// Priority levels for plan entries.
#[derive(Clone, Copy, Debug, PartialEq, Eq, Structural)]
#[non_exhaustive]
pub enum PlanEntryPriority {
    /// Critical to the overall goal.
    High,
    /// Important but not critical.
    Medium,
    /// Nice to have but not essential.
    Low,
}

/// Status of a plan entry in the execution flow.
#[derive(Clone, Copy, Debug, PartialEq, Eq, Structural)]
#[non_exhaustive]
pub enum PlanEntryStatus {
    /// The task has not started yet.
    Pending,
    /// The task is being worked on.
    InProgress,
    /// The task has been completed.
    Completed,
}

} // verus!
