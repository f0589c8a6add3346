//! Tasks and their priorities.

use vstd::prelude::*;
use vstd::string::*;

verus! {

/// How urgent a task is.
#[derive(Clone, Copy, Debug, PartialEq, Eq, Structural)]
pub enum TaskPriority {
    Low,
    Medium,
    High,
}

/// The lower-case name of a priority, as stored in the database.
pub open spec fn priority_name(p: TaskPriority) -> Seq<char> {
    match p {
        TaskPriority::Low => "low"@,
        TaskPriority::Medium => "medium"@,
        TaskPriority::High => "high"@,
    }
}

impl TaskPriority {
    /// The lower-case name of this priority.
    pub fn as_str(&self) -> (name: String)
        ensures
            name@ == priority_name(*self),
    {
        match self {
            TaskPriority::Low => String::from_str("low"),
            TaskPriority::Medium => String::from_str("medium"),
            TaskPriority::High => String::from_str("high"),
        }
    }
}

} // verus!
