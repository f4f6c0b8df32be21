//! The canonical persisted task record and its invariants.

use vstd::prelude::*;

use crate::files::{TaskFileOwners, TaskFiles, InputFile, OutputFile};
use crate::function::{Executor, FunctionArguments};
use crate::ids::{ExternalID, TaskID};
use crate::users::{UserID, UserList};

verus! {

/// The lifecycle discriminant stored in a persisted task record.
#[derive(Clone, Copy, Debug, PartialEq, Eq, Structural)]
pub enum TaskStatus {
    Created,
    DataAssigned,
    Approved,
    Staged,
    Running,
    Finished,
    Failed,
}

/// The position of a status in the forward order of the state machine.
/// `Failed` is terminal beside `Finished` and ranks with it: the two are
/// treated symmetrically for transition purposes.
pub open spec fn status_index(s: TaskStatus) -> int {
    match s {
        TaskStatus::Created => 0,
        TaskStatus::DataAssigned => 1,
        TaskStatus::Approved => 2,
        TaskStatus::Staged => 3,
        TaskStatus::Running => 4,
        TaskStatus::Finished => 5,
        TaskStatus::Failed => 5,
    }
}

/// The outcome of a task: unset until the executor reports, then either a
/// success payload or a failure description.
pub enum TaskResult {
    Unset,
    Success(Vec<u8>),
    Failure(String),
}

/// The canonical persisted record of a task.  Typed phase views wrap this
/// record; the `status` discriminant is the ground truth for persistence.
pub struct TaskState {
    pub task_id: TaskID,
    pub creator: UserID,
    pub function_id: ExternalID,
    pub function_arguments: FunctionArguments,
    pub executor: Executor,
    pub inputs_ownership: TaskFileOwners,
    pub outputs_ownership: TaskFileOwners,
    pub function_owner: UserID,
    pub participants: UserList,
    pub approved_users: UserList,
    pub assigned_inputs: TaskFiles<InputFile>,
    pub assigned_outputs: TaskFiles<OutputFile>,
    pub result: TaskResult,
    pub status: TaskStatus,
}

impl TaskState {
    /// The representation of every contained collection is well formed.
    pub open spec fn wf_reps(&self) -> bool {
        &&& self.participants.wf()
        &&& self.approved_users.wf()
        &&& self.function_arguments.wf()
        &&& self.inputs_ownership.wf()
        &&& self.inputs_ownership.values_wf()
        &&& self.outputs_ownership.wf()
        &&& self.outputs_ownership.values_wf()
        &&& self.assigned_inputs.wf()
        &&& self.assigned_outputs.wf()
    }

    /// Either the creator is the only participant, or every participant has
    /// approved.
    pub open spec fn spec_everyone_approved(&self) -> bool {
        self.participants@.len() == 1 || self.participants@ == self.approved_users@
    }

    /// Every declared input and output name has a concrete file bound to it.
    pub open spec fn spec_all_assigned(&self) -> bool {
        &&& self.assigned_inputs@.dom() == self.inputs_ownership@.dom()
        &&& self.assigned_outputs@.dom() == self.outputs_ownership@.dom()
    }

    /// Every bound file sits under a declared name and its owner set equals
    /// the declared owner set for that name.
    pub open spec fn files_match_declared(&self) -> bool {
        &&& forall|n: Seq<char>|
            #[trigger] self.assigned_inputs@.dom().contains(n) ==> self.inputs_ownership@.dom().contains(
                n,
            ) && self.assigned_inputs@[n].owner == self.inputs_ownership@[n]
        &&& forall|n: Seq<char>|
            #[trigger] self.assigned_outputs@.dom().contains(n)
                ==> self.outputs_ownership@.dom().contains(n) && self.assigned_outputs@[n].owner
                == self.outputs_ownership@[n]
    }

    /// Every owner named by an ownership declaration is a participant.
    pub open spec fn owners_participate(&self) -> bool {
        &&& forall|n: Seq<char>|
            #[trigger] self.inputs_ownership@.dom().contains(n)
                ==> self.inputs_ownership@[n].subset_of(self.participants@)
        &&& forall|n: Seq<char>|
            #[trigger] self.outputs_ownership@.dom().contains(n)
                ==> self.outputs_ownership@[n].subset_of(self.participants@)
    }

    /// The invariant that holds of every task record the core hands out, at
    /// every observable boundary.
    pub open spec fn wf(&self) -> bool {
        &&& self.wf_reps()
        &&& self.approved_users@.subset_of(self.participants@)
        &&& self.participants@.contains(self.creator@)
        &&& self.owners_participate()
        &&& self.files_match_declared()
        &&& status_index(self.status) >= 1 ==> self.spec_all_assigned()
        &&& status_index(self.status) >= 2 ==> self.spec_everyone_approved()
    }

    /// The key prefix under which task records are persisted.
    pub fn key_prefix() -> (r: &'static str)
        ensures
            r@ == "task"@,
    {
        "task"
    }

    /// The within-prefix key of this record.
    pub fn uuid(&self) -> (r: TaskID)
        ensures
            r == self.task_id,
    {
        self.task_id
    }

    /// Whether the approval quorum is reached: a single-user task counts as
    /// approved by its creator.
    pub fn everyone_approved(&self) -> (r: bool)
        requires
            self.participants.wf(),
        ensures
            r == self.spec_everyone_approved(),
    {
        self.participants.len() == 1 || self.participants.set_eq(&self.approved_users)
    }

    /// Whether every declared input and output name has a file bound to it.
    pub fn all_data_assigned(&self) -> (r: bool)
        ensures
            r == self.spec_all_assigned(),
    {
        let ai = self.assigned_inputs.dom_subset_of(&self.inputs_ownership);
        let ia = self.inputs_ownership.dom_subset_of(&self.assigned_inputs);
        let ao = self.assigned_outputs.dom_subset_of(&self.outputs_ownership);
        let oa = self.outputs_ownership.dom_subset_of(&self.assigned_outputs);
        proof {
            if ai && ia {
                assert(self.assigned_inputs@.dom() =~= self.inputs_ownership@.dom());
            }
            if ao && oa {
                assert(self.assigned_outputs@.dom() =~= self.outputs_ownership@.dom());
            }
        }
        ai && ia && ao && oa
    }

    pub fn has_participant(&self, user_id: &UserID) -> (r: bool)
        ensures
            r == self.participants@.contains(user_id@),
    {
        self.participants.contains(user_id)
    }

    pub fn has_creator(&self, user_id: &UserID) -> (r: bool)
        ensures
            r == (self.creator@ == user_id@),
    {
        self.creator == *user_id
    }
}

} // verus!
