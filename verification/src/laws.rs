//! The properties the lifecycle core guarantees, stated and proved once
//! over the specification-level model that every contract in this crate is
//! written against.

use vstd::prelude::*;

use crate::errors::Phase;
use crate::named_map::can_assign;
use crate::task::{persisted_status, restore_accepts};
use crate::task_state::{status_index, TaskState, TaskStatus};

verus! {

/// The approved users are always a subset of the participants.
pub proof fn lemma_approvals_within_participants(ts: TaskState)
    requires
        ts.wf(),
    ensures
        ts.approved_users@.subset_of(ts.participants@),
{
}

/// The creator is always a participant.
pub proof fn lemma_creator_participates(ts: TaskState)
    requires
        ts.wf(),
    ensures
        ts.participants@.contains(ts.creator@),
{
}

/// Every owner appearing in an input or output ownership declaration is a
/// participant.
pub proof fn lemma_declared_owners_participate(ts: TaskState, n: Seq<char>, u: Seq<char>)
    requires
        ts.wf(),
        (ts.inputs_ownership@.dom().contains(n) && ts.inputs_ownership@[n].contains(u)) || (
        ts.outputs_ownership@.dom().contains(n) && ts.outputs_ownership@[n].contains(u)),
    ensures
        ts.participants@.contains(u),
{
}

/// From `Approved` on, every declared input and output name is assigned and
/// the bound file's owner set equals the declared owner set.
pub proof fn lemma_assigned_when_approved(ts: TaskState)
    requires
        ts.wf(),
        status_index(ts.status) >= status_index(TaskStatus::Approved),
    ensures
        ts.spec_all_assigned(),
        forall|n: Seq<char>|
            #[trigger] ts.assigned_inputs@.dom().contains(n) ==> ts.assigned_inputs@[n].owner
                == ts.inputs_ownership@[n],
        forall|n: Seq<char>|
            #[trigger] ts.assigned_outputs@.dom().contains(n) ==> ts.assigned_outputs@[n].owner
                == ts.outputs_ownership@[n],
{
}

/// From `Staged` on, either the creator is the only participant or every
/// participant has approved.
pub proof fn lemma_quorum_when_staged(ts: TaskState)
    requires
        ts.wf(),
        status_index(ts.status) >= status_index(TaskStatus::Staged),
    ensures
        ts.participants@.len() == 1 || ts.participants@ == ts.approved_users@,
{
}

/// The view whose restore directly accepts the given persisted status.
pub open spec fn matching_phase(s: TaskStatus) -> Phase {
    match s {
        TaskStatus::Created => Phase::Assign,
        TaskStatus::DataAssigned => Phase::Approve,
        TaskStatus::Approved => Phase::Stage,
        TaskStatus::Staged => Phase::Run,
        TaskStatus::Running => Phase::Finish,
        TaskStatus::Finished => Phase::Done,
        TaskStatus::Failed => Phase::Done,
    }
}

/// Round trip: every persisted record restores into the view matching its
/// status, and persisting that view keeps every field and either keeps the
/// status or advances it by auto-promotion across a gate that now holds.
pub proof fn lemma_restore_persist_round_trip(ts: TaskState)
    ensures
        restore_accepts(matching_phase(ts.status), ts),
        status_index(persisted_status(matching_phase(ts.status), ts)) >= status_index(ts.status),
        persisted_status(matching_phase(ts.status), ts) == ts.status || (ts.status
            == TaskStatus::Created && ts.spec_all_assigned() && persisted_status(
            matching_phase(ts.status),
            ts,
        ) == TaskStatus::DataAssigned) || (ts.status == TaskStatus::DataAssigned
            && ts.spec_everyone_approved() && persisted_status(matching_phase(ts.status), ts)
            == TaskStatus::Approved),
{
}

/// Double assignment is refused: once a name is bound, it can never satisfy
/// the assignment gate again.
pub proof fn lemma_double_assign_refused<T>(m: Map<Seq<char>, T>, name: Seq<char>, v: T)
    ensures
        !can_assign(m.insert(name, v), name),
{
}

/// Monotonicity: whatever phase view a persisted record is restored into,
/// persisting that view never writes a status earlier in the state machine
/// than the one the record carried.
pub proof fn lemma_status_monotonic(p: Phase, ts: TaskState)
    requires
        restore_accepts(p, ts),
    ensures
        status_index(persisted_status(p, ts)) >= status_index(ts.status),
{
}

} // verus!
