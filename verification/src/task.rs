//! Typed phase views over a task record and the transition engine.
//!
//! Each of the seven lifecycle phases is a zero-sized tag; `Task<S>` wraps a
//! `TaskState` and exposes only the operations legal in phase `S`.  The
//! ground truth for persistence is the `status` discriminant: converting a
//! view back to a `TaskState` writes the status of the completed phase,
//! after auto-advancing across a gated transition when its gate holds.

use vstd::prelude::*;

use crate::errors::{Phase, TaskError};
use crate::files::{FileAuthTag, InputFile, OutputFile, OutputFileView, TaskFileOwners, TaskFiles};
use crate::function::{Executor, ExecutorType, Function, FunctionArguments};
use crate::ids::{fresh_task_id, ExternalID, TaskID};
use crate::named_map::{can_assign, string_set, NamedMap};
use crate::task_state::{status_index, TaskResult, TaskState, TaskStatus};
use crate::users::{UserID, UserList};

verus! {

/// Marker for the phase a `Task` view stands in.
pub trait StateTag {}

#[derive(Clone, Copy, Debug)]
pub struct Create;

#[derive(Clone, Copy, Debug)]
pub struct Assign;

#[derive(Clone, Copy, Debug)]
pub struct Approve;

#[derive(Clone, Copy, Debug)]
pub struct Stage;

#[derive(Clone, Copy, Debug)]
pub struct Run;

#[derive(Clone, Copy, Debug)]
pub struct Finish;

#[derive(Clone, Copy, Debug)]
pub struct Done;

impl StateTag for Create {}

impl StateTag for Assign {}

impl StateTag for Approve {}

impl StateTag for Stage {}

impl StateTag for Run {}

impl StateTag for Finish {}

impl StateTag for Done {}

/// A task wrapped in the view of one lifecycle phase.
pub struct Task<S: StateTag> {
    pub state: TaskState,
    pub extra: S,
}

/// The record with its status replaced; every other field kept.
pub open spec fn with_status(ts: TaskState, s: TaskStatus) -> TaskState {
    TaskState { status: s, ..ts }
}

/// Which persisted statuses a restore into the given phase accepts; the
/// gate conditions hold again along any auto-advancement.
pub open spec fn restore_accepts(p: Phase, ts: TaskState) -> bool {
    match p {
        Phase::Create => false,
        Phase::Assign => ts.status == TaskStatus::Created,
        Phase::Approve => (ts.status == TaskStatus::Created && ts.spec_all_assigned()) || ts.status
            == TaskStatus::DataAssigned,
        Phase::Stage => (((ts.status == TaskStatus::Created && ts.spec_all_assigned()) || ts.status
            == TaskStatus::DataAssigned) && ts.spec_everyone_approved()) || ts.status
            == TaskStatus::Approved,
        Phase::Run => ts.status == TaskStatus::Staged,
        Phase::Finish => ts.status == TaskStatus::Running,
        Phase::Done => ts.status == TaskStatus::Finished || ts.status == TaskStatus::Failed,
    }
}

/// The error a refused restore reports: a gate that failed during
/// auto-advancement, or an incompatible saved status.
pub open spec fn restore_error(p: Phase, ts: TaskState) -> TaskError {
    match p {
        Phase::Approve => if ts.status == TaskStatus::Created {
            TaskError::NotReadyAssignApprove
        } else {
            TaskError::CannotRestore(Phase::Approve)
        },
        Phase::Stage => if ts.status == TaskStatus::Created && !ts.spec_all_assigned() {
            TaskError::NotReadyAssignApprove
        } else if ts.status == TaskStatus::Created || ts.status == TaskStatus::DataAssigned {
            TaskError::NotReadyApproveStage
        } else {
            TaskError::CannotRestore(Phase::Stage)
        },
        _ => TaskError::CannotRestore(p),
    }
}

/// The status a view persists: the completed phase, advanced by one when the
/// gate of the next transition holds.
pub open spec fn persisted_status(p: Phase, ts: TaskState) -> TaskStatus {
    match p {
        Phase::Create => TaskStatus::Created,
        Phase::Assign => if ts.spec_all_assigned() {
            TaskStatus::DataAssigned
        } else {
            TaskStatus::Created
        },
        Phase::Approve => if ts.spec_everyone_approved() {
            TaskStatus::Approved
        } else {
            TaskStatus::DataAssigned
        },
        Phase::Stage => TaskStatus::Approved,
        Phase::Run => TaskStatus::Staged,
        Phase::Finish => TaskStatus::Running,
        Phase::Done => if ts.status == TaskStatus::Failed {
            TaskStatus::Failed
        } else {
            TaskStatus::Finished
        },
    }
}

/// What `Task::<Create>::new` promises of the record it builds.
pub open spec fn creation_sound(
    ts: TaskState,
    requester: UserID,
    req_executor: Executor,
    args: FunctionArguments,
    in_own: TaskFileOwners,
    out_own: TaskFileOwners,
    function: Function,
) -> bool {
    &&& ts.creator == requester
    &&& ts.function_id == function.id
    &&& ts.function_owner == function.owner
    &&& ts.function_arguments == args
    &&& ts.executor == req_executor
    &&& ts.inputs_ownership == in_own
    &&& ts.outputs_ownership == out_own
    &&& ts.approved_users@ == Set::<Seq<char>>::empty()
    &&& ts.assigned_inputs@.dom() == Set::<Seq<char>>::empty()
    &&& ts.assigned_outputs@.dom() == Set::<Seq<char>>::empty()
    &&& ts.result is Unset
    &&& ts.status == TaskStatus::Created
    &&& forall|u: Seq<char>|
        #[trigger] ts.participants@.contains(u) <==> (u == requester@ || (!function.public && u
            == function.owner@) || (exists|k: Seq<char>|
            #[trigger] in_own@.dom().contains(k) && in_own@[k].contains(u)) || (exists|
            k: Seq<char>,
        |
            #[trigger] out_own@.dom().contains(k) && out_own@[k].contains(u)))
    &&& ts.wf()
}

impl Task<Create> {
    /// Creates a task: gathers the participant set from the declared owner
    /// sets, the requester and (for a private function) the function owner,
    /// and verifies the supplied argument, input and output names against
    /// the function's declaration.
    pub fn new(
        requester: UserID,
        req_executor: Executor,
        req_func_args: FunctionArguments,
        req_input_owners: TaskFileOwners,
        req_output_owners: TaskFileOwners,
        function: Function,
    ) -> (r: Result<Task<Create>, TaskError>)
        requires
            req_func_args.wf(),
            req_input_owners.wf(),
            req_input_owners.values_wf(),
            req_output_owners.wf(),
            req_output_owners.values_wf(),
        ensures
            r is Ok <==> (req_func_args@.dom() == string_set(function.arguments@)
                && req_input_owners@.dom() == string_set(function.inputs@)
                && req_output_owners@.dom() == string_set(function.outputs@)),
            r is Err ==> r == Err::<Task<Create>, TaskError>(
                if req_func_args@.dom() != string_set(function.arguments@) {
                    TaskError::ArgumentsMismatch
                } else if req_input_owners@.dom() != string_set(function.inputs@) {
                    TaskError::InputKeysMismatch
                } else {
                    TaskError::OutputKeysMismatch
                },
            ),
            r matches Ok(t) ==> creation_sound(
                t.state,
                requester,
                req_executor,
                req_func_args,
                req_input_owners,
                req_output_owners,
                function,
            ),
    {
        if !req_func_args.keys_match_list(&function.arguments) {
            return Err(TaskError::ArgumentsMismatch);
        }
        if !req_input_owners.keys_match_list(&function.inputs) {
            return Err(TaskError::InputKeysMismatch);
        }
        if !req_output_owners.keys_match_list(&function.outputs) {
            return Err(TaskError::OutputKeysMismatch);
        }
        let mut participants = req_input_owners.all_owners();
        let output_owners = req_output_owners.all_owners();
        participants.union_with(&output_owners);
        participants.insert(requester.clone());
        if !function.public {
            participants.insert(function.owner.clone());
        }
        let ts = TaskState {
            task_id: fresh_task_id(),
            creator: requester,
            function_id: function.id,
            function_arguments: req_func_args,
            executor: req_executor,
            inputs_ownership: req_input_owners,
            outputs_ownership: req_output_owners,
            function_owner: function.owner,
            participants,
            approved_users: UserList::new(),
            assigned_inputs: NamedMap::new(),
            assigned_outputs: NamedMap::new(),
            result: TaskResult::Unset,
            status: TaskStatus::Created,
        };
        proof {
            assert forall|n: Seq<char>|
                #[trigger] ts.inputs_ownership@.dom().contains(n) implies ts.inputs_ownership@[n].subset_of(
                ts.participants@,
            ) by {
                assert forall|u: Seq<char>|
                    #[trigger] ts.inputs_ownership@[n].contains(u) implies ts.participants@.contains(
                    u,
                ) by {
                    assert(req_input_owners@.dom().contains(n) && req_input_owners@[n].contains(u));
                }
            }
            assert forall|n: Seq<char>|
                #[trigger] ts.outputs_ownership@.dom().contains(n) implies ts.outputs_ownership@[n].subset_of(
                ts.participants@,
            ) by {
                assert forall|u: Seq<char>|
                    #[trigger] ts.outputs_ownership@[n].contains(u) implies ts.participants@.contains(
                    u,
                ) by {
                    assert(req_output_owners@.dom().contains(n) && req_output_owners@[n].contains(
                        u,
                    ));
                }
            }
            assert(ts.wf());
        }
        Ok(Task { state: ts, extra: Create })
    }

    /// The view's phase invariant.
    pub open spec fn wf(self) -> bool {
        self.state.wf()
    }

    /// Persists the view; a freshly created task is `Created`.
    pub fn into_state(self) -> (r: TaskState)
        ensures
            r == with_status(self.state, persisted_status(Phase::Create, self.state)),
            self.wf() ==> r.wf(),
    {
        let mut s = self.state;
        s.status = TaskStatus::Created;
        s
    }
}

impl Task<Assign> {
    /// Wraps a record in the Assign view.  The wrapper itself checks
    /// nothing; `restore` is the checked entry from persisted state.
    pub fn new(ts: TaskState) -> (r: Result<Task<Assign>, TaskError>)
        ensures
            (r matches Ok(t) && t.state == ts),
    {
        Ok(Task { state: ts, extra: Assign })
    }

    /// The view's phase invariant.
    pub open spec fn wf(self) -> bool {
        self.state.wf()
    }

    /// Binds a concrete input file to a declared input name.  The requester
    /// must be among the file's owners, the file's owner set must equal the
    /// declared owner set for the name, and the name must still be free.
    pub fn assign_input(&mut self, requester: &UserID, fname: String, file: InputFile) -> (r:
        Result<(), TaskError>)
        requires
            old(self).state.inputs_ownership.wf(),
            old(self).state.assigned_inputs.wf(),
        ensures
            r is Ok <==> (file.owner@.contains(requester@)
                && old(self).state.inputs_ownership@.dom().contains(fname@)
                && old(self).state.inputs_ownership@[fname@] == file.owner@ && can_assign(
                old(self).state.assigned_inputs@,
                fname@,
            )),
            r is Ok ==> final(self).state == (TaskState {
                assigned_inputs: final(self).state.assigned_inputs,
                ..old(self).state
            }) && final(self).state.assigned_inputs@ == old(self).state.assigned_inputs@.insert(
                fname@,
                file@,
            ) && final(self).state.assigned_inputs.wf(),
            r is Err ==> *final(self) == *old(self) && r == Err::<(), TaskError>(
                if !file.owner@.contains(requester@) {
                    TaskError::NotOwner
                } else if !old(self).state.inputs_ownership@.dom().contains(fname@) {
                    TaskError::UnknownName
                } else if old(self).state.inputs_ownership@[fname@] != file.owner@ {
                    TaskError::OwnerMismatch
                } else {
                    TaskError::AlreadyAssigned
                },
            ),
            old(self).wf() ==> final(self).wf(),
    {
        if !file.owner.contains(requester) {
            return Err(TaskError::NotOwner);
        }
        match self.state.inputs_ownership.check(&fname, &file.owner) {
            Err(e) => Err(e),
            Ok(()) => {
                let r = self.state.assigned_inputs.assign(fname, file);
                proof {
                    if r is Ok && old(self).wf() {
                        if status_index(self.state.status) >= 1 {
                            assert(old(self).state.spec_all_assigned());
                            assert(old(self).state.assigned_inputs@.dom().contains(fname@));
                            assert(false);
                        }
                        assert(self.state.wf());
                    }
                }
                r
            },
        }
    }

    /// Binds a concrete output file to a declared output name, under the
    /// same conditions as `assign_input`.
    pub fn assign_output(&mut self, requester: &UserID, fname: String, file: OutputFile) -> (r:
        Result<(), TaskError>)
        requires
            old(self).state.outputs_ownership.wf(),
            old(self).state.assigned_outputs.wf(),
        ensures
            r is Ok <==> (file.owner@.contains(requester@)
                && old(self).state.outputs_ownership@.dom().contains(fname@)
                && old(self).state.outputs_ownership@[fname@] == file.owner@ && can_assign(
                old(self).state.assigned_outputs@,
                fname@,
            )),
            r is Ok ==> final(self).state == (TaskState {
                assigned_outputs: final(self).state.assigned_outputs,
                ..old(self).state
            }) && final(self).state.assigned_outputs@ == old(self).state.assigned_outputs@.insert(
                fname@,
                file@,
            ) && final(self).state.assigned_outputs.wf(),
            r is Err ==> *final(self) == *old(self) && r == Err::<(), TaskError>(
                if !file.owner@.contains(requester@) {
                    TaskError::NotOwner
                } else if !old(self).state.outputs_ownership@.dom().contains(fname@) {
                    TaskError::UnknownName
                } else if old(self).state.outputs_ownership@[fname@] != file.owner@ {
                    TaskError::OwnerMismatch
                } else {
                    TaskError::AlreadyAssigned
                },
            ),
            old(self).wf() ==> final(self).wf(),
    {
        if !file.owner.contains(requester) {
            return Err(TaskError::NotOwner);
        }
        match self.state.outputs_ownership.check(&fname, &file.owner) {
            Err(e) => Err(e),
            Ok(()) => {
                let r = self.state.assigned_outputs.assign(fname, file);
                proof {
                    if r is Ok && old(self).wf() {
                        if status_index(self.state.status) >= 1 {
                            assert(old(self).state.spec_all_assigned());
                            assert(old(self).state.assigned_outputs@.dom().contains(fname@));
                            assert(false);
                        }
                        assert(self.state.wf());
                    }
                }
                r
            },
        }
    }

    /// Advances to Approve; refused until every declared name is bound.
    pub fn advance(self) -> (r: Result<Task<Approve>, TaskError>)
        ensures
            r is Ok <==> self.state.spec_all_assigned(),
            (r matches Ok(t) ==> t.state == self.state && (self.wf() ==> t.wf())),
            r is Err ==> r == Err::<Task<Approve>, TaskError>(TaskError::NotReadyAssignApprove),
    {
        if self.state.all_data_assigned() {
            Ok(Task { state: self.state, extra: Approve })
        } else {
            Err(TaskError::NotReadyAssignApprove)
        }
    }

    /// Restores from persisted state; only a `Created` record may enter the
    /// Assign phase.
    pub fn restore(ts: TaskState) -> (r: Result<Task<Assign>, TaskError>)
        ensures
            r is Ok <==> restore_accepts(Phase::Assign, ts),
            (r matches Ok(t) ==> t.state == ts && (ts.wf() ==> t.wf())),
            r is Err ==> r == Err::<Task<Assign>, TaskError>(restore_error(Phase::Assign, ts)),
    {
        match ts.status {
            TaskStatus::Created => Ok(Task { state: ts, extra: Assign }),
            _ => Err(TaskError::CannotRestore(Phase::Assign)),
        }
    }

    /// Persists the view, auto-advancing to `DataAssigned` once every
    /// declared name is bound.
    pub fn into_state(self) -> (r: TaskState)
        ensures
            r == with_status(self.state, persisted_status(Phase::Assign, self.state)),
            self.wf() ==> r.wf(),
    {
        let mut s = self.state;
        if s.all_data_assigned() {
            s.status = TaskStatus::DataAssigned;
        } else {
            s.status = TaskStatus::Created;
        }
        s
    }
}

impl Task<Approve> {
    /// Wraps a record in the Approve view.  The wrapper itself checks
    /// nothing; `restore` is the checked entry from persisted state.
    pub fn new(ts: TaskState) -> (r: Result<Task<Approve>, TaskError>)
        ensures
            (r matches Ok(t) && t.state == ts),
    {
        Ok(Task { state: ts, extra: Approve })
    }

    /// The view's phase invariant: data assignment is complete.
    pub open spec fn wf(self) -> bool {
        self.state.wf() && self.state.spec_all_assigned()
    }

    /// Records the requester's approval; refused for a non-participant, and
    /// idempotent for a participant who already approved.
    pub fn approve(&mut self, requester: &UserID) -> (r: Result<(), TaskError>)
        requires
            old(self).state.approved_users.wf(),
        ensures
            r is Ok <==> old(self).state.participants@.contains(requester@),
            r is Ok ==> final(self).state == (TaskState {
                approved_users: final(self).state.approved_users,
                ..old(self).state
            }) && final(self).state.approved_users@ == old(self).state.approved_users@.insert(
                requester@,
            ) && final(self).state.approved_users.wf(),
            r is Err ==> *final(self) == *old(self) && r == Err::<(), TaskError>(
                TaskError::UnexpectedApprover,
            ),
            old(self).wf() ==> final(self).wf(),
    {
        if !self.state.participants.contains(requester) {
            return Err(TaskError::UnexpectedApprover);
        }
        self.state.approved_users.insert(requester.clone());
        proof {
            if old(self).wf() {
                if status_index(self.state.status) >= 2 {
                    if old(self).state.participants@ == old(self).state.approved_users@ {
                        assert(self.state.approved_users@ =~= self.state.participants@);
                    }
                }
                assert(self.state.approved_users@.subset_of(self.state.participants@));
                assert(self.state.wf());
            }
        }
        Ok(())
    }

    /// Advances to Stage; refused until the approval quorum is reached.
    pub fn advance(self) -> (r: Result<Task<Stage>, TaskError>)
        requires
            self.state.participants.wf(),
        ensures
            r is Ok <==> self.state.spec_everyone_approved(),
            (r matches Ok(t) ==> t.state == self.state && (self.wf() ==> t.wf())),
            r is Err ==> r == Err::<Task<Stage>, TaskError>(TaskError::NotReadyApproveStage),
    {
        if self.state.everyone_approved() {
            Ok(Task { state: self.state, extra: Stage })
        } else {
            Err(TaskError::NotReadyApproveStage)
        }
    }

    /// Restores from persisted state: directly from `DataAssigned`, or from
    /// `Created` by auto-advancing through the Assign gate.
    pub fn restore(ts: TaskState) -> (r: Result<Task<Approve>, TaskError>)
        ensures
            r is Ok <==> restore_accepts(Phase::Approve, ts),
            (r matches Ok(t) ==> t.state == ts && (ts.wf() ==> t.wf())),
            r is Err ==> r == Err::<Task<Approve>, TaskError>(restore_error(Phase::Approve, ts)),
    {
        match ts.status {
            TaskStatus::Created => {
                match Task::<Assign>::restore(ts) {
                    Ok(t) => t.advance(),
                    Err(e) => Err(e),
                }
            },
            TaskStatus::DataAssigned => Ok(Task { state: ts, extra: Approve }),
            _ => Err(TaskError::CannotRestore(Phase::Approve)),
        }
    }

    /// Persists the view, auto-advancing to `Approved` once the quorum is
    /// reached; otherwise the completed phase `DataAssigned` is written.
    pub fn into_state(self) -> (r: TaskState)
        requires
            self.state.participants.wf(),
        ensures
            r == with_status(self.state, persisted_status(Phase::Approve, self.state)),
            self.wf() ==> r.wf(),
    {
        let mut s = self.state;
        if s.everyone_approved() {
            s.status = TaskStatus::Approved;
        } else {
            s.status = TaskStatus::DataAssigned;
        }
        s
    }
}

/// The immutable dispatch record handed to the executor once a task is
/// approved and staged by its creator.
pub struct StagedTask {
    pub task_id: TaskID,
    pub executor: Executor,
    pub executor_type: ExecutorType,
    pub function_id: ExternalID,
    pub function_name: String,
    pub function_payload: Vec<u8>,
    pub function_arguments: FunctionArguments,
    pub input_data: TaskFiles<InputFile>,
    pub output_data: TaskFiles<OutputFile>,
}

impl Task<Stage> {
    /// Wraps a record in the Stage view.  The wrapper itself checks
    /// nothing; `restore` is the checked entry from persisted state.
    pub fn new(ts: TaskState) -> (r: Result<Task<Stage>, TaskError>)
        ensures
            (r matches Ok(t) && t.state == ts),
    {
        Ok(Task { state: ts, extra: Stage })
    }

    /// The view's phase invariant: data assignment is complete and the
    /// approval quorum is reached.
    pub open spec fn wf(self) -> bool {
        self.state.wf() && self.state.spec_all_assigned() && self.state.spec_everyone_approved()
    }

    /// Builds the dispatch record for the executor.  Only the task creator
    /// may stage; approvals of other participants do not suffice.
    pub fn stage_for_running(&self, requester: &UserID, function: Function) -> (r: Result<
        StagedTask,
        TaskError,
    >)
        requires
            self.state.function_arguments.wf(),
            self.state.assigned_inputs.wf(),
            self.state.assigned_outputs.wf(),
        ensures
            r is Ok <==> self.state.creator@ == requester@,
            (r matches Ok(st) ==> st.task_id == self.state.task_id && st.executor
                == self.state.executor && st.executor_type == function.executor_type
                && st.function_id == function.id && st.function_name == function.name
                && st.function_payload == function.payload && st.function_arguments@
                == self.state.function_arguments@ && st.input_data@ == self.state.assigned_inputs@
                && st.output_data@ == self.state.assigned_outputs@ && st.function_arguments.wf()
                && st.input_data.wf() && st.output_data.wf()),
            r is Err ==> r == Err::<StagedTask, TaskError>(TaskError::NotCreator),
    {
        if !self.state.has_creator(requester) {
            return Err(TaskError::NotCreator);
        }
        Ok(
            StagedTask {
                task_id: self.state.uuid(),
                executor: self.state.executor,
                executor_type: function.executor_type,
                function_id: function.id,
                function_name: function.name,
                function_payload: function.payload,
                function_arguments: self.state.function_arguments.dup(),
                input_data: self.state.assigned_inputs.dup(),
                output_data: self.state.assigned_outputs.dup(),
            },
        )
    }

    /// Advances to Run: the executor picks the staged task up.
    pub fn advance(self) -> (r: Result<Task<Run>, TaskError>)
        ensures
            r is Ok,
            (r matches Ok(t) ==> t.state == self.state && (self.wf() ==> t.wf())),
    {
        Ok(Task { state: self.state, extra: Run })
    }

    /// Restores from persisted state: directly from `Approved`, or from
    /// `Created` or `DataAssigned` by auto-advancing through both gates.
    pub fn restore(ts: TaskState) -> (r: Result<Task<Stage>, TaskError>)
        requires
            ts.participants.wf(),
        ensures
            r is Ok <==> restore_accepts(Phase::Stage, ts),
            (r matches Ok(t) ==> t.state == ts && (ts.wf() ==> t.wf())),
            r is Err ==> r == Err::<Task<Stage>, TaskError>(restore_error(Phase::Stage, ts)),
    {
        match ts.status {
            TaskStatus::Created | TaskStatus::DataAssigned => {
                match Task::<Approve>::restore(ts) {
                    Ok(t) => t.advance(),
                    Err(e) => Err(e),
                }
            },
            TaskStatus::Approved => Ok(Task { state: ts, extra: Stage }),
            _ => Err(TaskError::CannotRestore(Phase::Stage)),
        }
    }

    /// Persists the view at the completed phase `Approved`; picking the
    /// task up is the executor's action, never taken on persistence.
    pub fn into_state(self) -> (r: TaskState)
        ensures
            r == with_status(self.state, persisted_status(Phase::Stage, self.state)),
            self.wf() ==> r.wf(),
    {
        let mut s = self.state;
        s.status = TaskStatus::Approved;
        s
    }
}

impl Task<Run> {
    /// Wraps a record in the Run view.  The wrapper itself checks nothing;
    /// `restore` is the checked entry from persisted state.
    pub fn new(ts: TaskState) -> (r: Result<Task<Run>, TaskError>)
        ensures
            (r matches Ok(t) && t.state == ts),
    {
        Ok(Task { state: ts, extra: Run })
    }

    /// The view's phase invariant.
    pub open spec fn wf(self) -> bool {
        self.state.wf() && self.state.spec_all_assigned() && self.state.spec_everyone_approved()
    }

    /// Advances to Finish: the executor reports completion.
    pub fn advance(self) -> (r: Result<Task<Finish>, TaskError>)
        ensures
            r is Ok,
            (r matches Ok(t) ==> t.state == self.state && (self.wf() ==> t.wf())),
    {
        Ok(Task { state: self.state, extra: Finish })
    }

    /// Restores from persisted state; only a `Staged` record may enter the
    /// Run phase.
    pub fn restore(ts: TaskState) -> (r: Result<Task<Run>, TaskError>)
        ensures
            r is Ok <==> restore_accepts(Phase::Run, ts),
            (r matches Ok(t) ==> t.state == ts && (ts.wf() ==> t.wf())),
            r is Err ==> r == Err::<Task<Run>, TaskError>(restore_error(Phase::Run, ts)),
    {
        match ts.status {
            TaskStatus::Staged => Ok(Task { state: ts, extra: Run }),
            _ => Err(TaskError::CannotRestore(Phase::Run)),
        }
    }

    /// Persists the view at the completed phase `Staged`.
    pub fn into_state(self) -> (r: TaskState)
        ensures
            r == with_status(self.state, persisted_status(Phase::Run, self.state)),
            self.wf() ==> r.wf(),
    {
        let mut s = self.state;
        s.status = TaskStatus::Staged;
        s
    }
}

impl Task<Finish> {
    /// Wraps a record in the Finish view.  The wrapper itself checks
    /// nothing; `restore` is the checked entry from persisted state.
    pub fn new(ts: TaskState) -> (r: Result<Task<Finish>, TaskError>)
        ensures
            (r matches Ok(t) && t.state == ts),
    {
        Ok(Task { state: ts, extra: Finish })
    }

    /// The view's phase invariant.
    pub open spec fn wf(self) -> bool {
        self.state.wf() && self.state.spec_all_assigned() && self.state.spec_everyone_approved()
    }

    /// Attaches an authentication tag to an assigned output file; fails if
    /// the name has no file bound to it.
    pub fn update_output_cmac(&mut self, fname: &String, auth_tag: &FileAuthTag) -> (r:
        Result<(), TaskError>)
        requires
            old(self).state.assigned_outputs.wf(),
        ensures
            r is Ok <==> old(self).state.assigned_outputs@.dom().contains(fname@),
            r is Ok ==> final(self).state == (TaskState {
                assigned_outputs: final(self).state.assigned_outputs,
                ..old(self).state
            }) && final(self).state.assigned_outputs@ == old(self).state.assigned_outputs@.insert(
                fname@,
                OutputFileView {
                    external_id: old(self).state.assigned_outputs@[fname@].external_id,
                    owner: old(self).state.assigned_outputs@[fname@].owner,
                    cmac: Option::Some(auth_tag@),
                },
            ) && final(self).state.assigned_outputs.wf(),
            r is Err ==> *final(self) == *old(self) && r == Err::<(), TaskError>(
                TaskError::UnknownName,
            ),
            old(self).wf() ==> final(self).wf(),
    {
        let r = self.state.assigned_outputs.update_cmac(fname, auth_tag);
        proof {
            if r is Ok && old(self).wf() {
                assert(self.state.assigned_outputs@.dom() =~= old(
                    self,
                ).state.assigned_outputs@.dom().insert(fname@));
                assert(self.state.assigned_outputs@.dom() =~= old(
                    self,
                ).state.assigned_outputs@.dom());
                assert(self.state.spec_all_assigned());
                assert(self.state.files_match_declared());
                assert(self.state.wf());
            }
        }
        r
    }

    /// Sets the task's outcome.
    pub fn update_result(&mut self, result: TaskResult) -> (r: Result<(), TaskError>)
        ensures
            r is Ok,
            final(self).state == (TaskState { result: final(self).state.result, ..old(self).state }),
            final(self).state.result == result,
            old(self).wf() ==> final(self).wf(),
    {
        self.state.result = result;
        Ok(())
    }

    /// Advances to Done: the terminal acknowledgement.
    pub fn advance(self) -> (r: Result<Task<Done>, TaskError>)
        ensures
            r is Ok,
            (r matches Ok(t) ==> t.state == self.state && (self.wf() ==> t.wf())),
    {
        Ok(Task { state: self.state, extra: Done })
    }

    /// Restores from persisted state; only a `Running` record may enter the
    /// Finish phase.
    pub fn restore(ts: TaskState) -> (r: Result<Task<Finish>, TaskError>)
        ensures
            r is Ok <==> restore_accepts(Phase::Finish, ts),
            (r matches Ok(t) ==> t.state == ts && (ts.wf() ==> t.wf())),
            r is Err ==> r == Err::<Task<Finish>, TaskError>(restore_error(Phase::Finish, ts)),
    {
        match ts.status {
            TaskStatus::Running => Ok(Task { state: ts, extra: Finish }),
            _ => Err(TaskError::CannotRestore(Phase::Finish)),
        }
    }

    /// Persists the view at the completed phase `Running`.
    pub fn into_state(self) -> (r: TaskState)
        ensures
            r == with_status(self.state, persisted_status(Phase::Finish, self.state)),
            self.wf() ==> r.wf(),
    {
        let mut s = self.state;
        s.status = TaskStatus::Running;
        s
    }
}

impl Task<Done> {
    /// Wraps a record in the Done view.  The wrapper itself checks nothing;
    /// `restore` is the checked entry from persisted state.
    pub fn new(ts: TaskState) -> (r: Result<Task<Done>, TaskError>)
        ensures
            (r matches Ok(t) && t.state == ts),
    {
        Ok(Task { state: ts, extra: Done })
    }

    /// The view's phase invariant.
    pub open spec fn wf(self) -> bool {
        self.state.wf() && self.state.spec_all_assigned() && self.state.spec_everyone_approved()
    }

    /// Restores from persisted state; a `Finished` or `Failed` record may
    /// be acknowledged — the two terminal outcomes are treated alike.
    pub fn restore(ts: TaskState) -> (r: Result<Task<Done>, TaskError>)
        ensures
            r is Ok <==> restore_accepts(Phase::Done, ts),
            (r matches Ok(t) ==> t.state == ts && (ts.wf() ==> t.wf())),
            r is Err ==> r == Err::<Task<Done>, TaskError>(restore_error(Phase::Done, ts)),
    {
        match ts.status {
            TaskStatus::Finished | TaskStatus::Failed => Ok(Task { state: ts, extra: Done }),
            _ => Err(TaskError::CannotRestore(Phase::Done)),
        }
    }

    /// Persists the terminal view as `Finished` (no further advancement); a
    /// record already marked `Failed` keeps that mark.
    pub fn into_state(self) -> (r: TaskState)
        ensures
            r == with_status(self.state, persisted_status(Phase::Done, self.state)),
            self.wf() ==> r.wf(),
    {
        let mut s = self.state;
        match s.status {
            TaskStatus::Failed => {
                s.status = TaskStatus::Failed;
            },
            _ => {
                s.status = TaskStatus::Finished;
            },
        }
        s
    }
}

} // verus!
