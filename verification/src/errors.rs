//! Error surface of the lifecycle core.
//!
//! Every failure is recoverable at the boundary and carries a stable,
//! human-readable phrase that clients may match on.

use vstd::prelude::*;

verus! {

/// The lifecycle phase a typed view stands for.  Restore errors name the
/// phase that was requested.
#[derive(Clone, Copy, Debug, PartialEq, Eq, Structural)]
pub enum Phase {
    Create,
    Assign,
    Approve,
    Stage,
    Run,
    Finish,
    Done,
}

/// Why a creation, a phase operation or a transition was refused.
#[derive(Clone, Copy, Debug, PartialEq, Eq, Structural)]
pub enum TaskError {
    /// The argument names supplied at creation differ from the names the
    /// function declares.
    ArgumentsMismatch,
    /// The input parameter names declared at creation differ from the names
    /// the function declares.
    InputKeysMismatch,
    /// The output parameter names declared at creation differ from the names
    /// the function declares.
    OutputKeysMismatch,
    /// The requester binding a file is not among the file's owners.
    NotOwner,
    /// The named parameter is not known to the declaration or assignment
    /// being consulted.
    UnknownName,
    /// The supplied file's owner set differs from the declared owner set for
    /// the named parameter.
    OwnerMismatch,
    /// The named parameter already has a file bound to it.
    AlreadyAssigned,
    /// The approving user is not a participant of the task.
    UnexpectedApprover,
    /// Only the task creator may stage the task for running.
    NotCreator,
    /// Not every declared parameter has a file bound to it yet.
    NotReadyAssignApprove,
    /// Not every participant has approved yet.
    NotReadyApproveStage,
    /// The persisted status does not allow restoring to the requested phase.
    CannotRestore(Phase),
}

impl TaskError {
    /// The stable phrase for this error.
    pub open spec fn spec_message(self) -> Seq<char> {
        match self {
            TaskError::ArgumentsMismatch => "function_arguments mismatch"@,
            TaskError::InputKeysMismatch => "input keys mismatch"@,
            TaskError::OutputKeysMismatch => "output keys mismatch"@,
            TaskError::NotOwner => "requester is not in the owner list"@,
            TaskError::UnknownName => "no parameter with this name"@,
            TaskError::OwnerMismatch => "file owners do not match the declared owners"@,
            TaskError::AlreadyAssigned => "parameter name is already assigned"@,
            TaskError::UnexpectedApprover => "Unexpected user trying to approve a task"@,
            TaskError::NotCreator => "Requestor is not the task creator"@,
            TaskError::NotReadyAssignApprove => "Not ready: Assign -> Approve"@,
            TaskError::NotReadyApproveStage => "Not ready: Approve -> Stage"@,
            TaskError::CannotRestore(Phase::Create) => "Cannot restore to Create from saved state"@,
            TaskError::CannotRestore(Phase::Assign) => "Cannot restore to Assign from saved state"@,
            TaskError::CannotRestore(Phase::Approve) => "Cannot restore to Approve from saved state"@,
            TaskError::CannotRestore(Phase::Stage) => "Cannot restore to Stage from saved state"@,
            TaskError::CannotRestore(Phase::Run) => "Cannot restore to Run from saved state"@,
            TaskError::CannotRestore(Phase::Finish) => "Cannot restore to Finish from saved state"@,
            TaskError::CannotRestore(Phase::Done) => "Cannot restore to Done from saved state"@,
        }
    }

    /// Returns the stable phrase for this error.
    pub fn message(&self) -> (r: &'static str)
        ensures
            r@ == self.spec_message(),
    {
        match self {
            TaskError::ArgumentsMismatch => "function_arguments mismatch",
            TaskError::InputKeysMismatch => "input keys mismatch",
            TaskError::OutputKeysMismatch => "output keys mismatch",
            TaskError::NotOwner => "requester is not in the owner list",
            TaskError::UnknownName => "no parameter with this name",
            TaskError::OwnerMismatch => "file owners do not match the declared owners",
            TaskError::AlreadyAssigned => "parameter name is already assigned",
            TaskError::UnexpectedApprover => "Unexpected user trying to approve a task",
            TaskError::NotCreator => "Requestor is not the task creator",
            TaskError::NotReadyAssignApprove => "Not ready: Assign -> Approve",
            TaskError::NotReadyApproveStage => "Not ready: Approve -> Stage",
            TaskError::CannotRestore(Phase::Create) => "Cannot restore to Create from saved state",
            TaskError::CannotRestore(Phase::Assign) => "Cannot restore to Assign from saved state",
            TaskError::CannotRestore(Phase::Approve) => "Cannot restore to Approve from saved state",
            TaskError::CannotRestore(Phase::Stage) => "Cannot restore to Stage from saved state",
            TaskError::CannotRestore(Phase::Run) => "Cannot restore to Run from saved state",
            TaskError::CannotRestore(Phase::Finish) => "Cannot restore to Finish from saved state",
            TaskError::CannotRestore(Phase::Done) => "Cannot restore to Done from saved state",
        }
    }
}

} // verus!
