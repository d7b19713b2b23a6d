//! The ways in which an operation on plans fails.

use vstd::prelude::*;

verus! {

/// Why an operation on plans failed.
#[derive(Debug, Clone, Copy, PartialEq, Eq)]
pub enum PlanError {
    /// No stored plan has the identifier asked for.
    NotFound,
    /// An identifier is not well formed, or the backend assigned none.
    InvalidId,
    /// The storage backend did not carry out the operation.
    BackendUnavailable,
    /// A stored document lacks a field of a plan, or holds it as something
    /// other than what a plan holds.
    Corrupt,
}

impl PlanError {
    /// The message that stands for this error in a response.
    pub open spec fn message_text(self) -> Seq<char> {
        match self {
            PlanError::NotFound => "Plan not found"@,
            PlanError::InvalidId => "Invalid ObjectId"@,
            PlanError::BackendUnavailable => "Database error"@,
            PlanError::Corrupt => "Corrupt record"@,
        }
    }

    /// The message that stands for this error in a response.
    pub fn message(&self) -> (text: &'static str)
        ensures
            text@ == self.message_text(),
    {
        match self {
            PlanError::NotFound => "Plan not found",
            PlanError::InvalidId => "Invalid ObjectId",
            PlanError::BackendUnavailable => "Database error",
            PlanError::Corrupt => "Corrupt record",
        }
    }
}

} // verus!
