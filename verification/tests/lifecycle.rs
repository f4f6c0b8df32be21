//! End-to-end lifecycle scenarios.

use task_lifecycle::errors::{Phase, TaskError};
use task_lifecycle::files::{InputFile, OutputFile, TaskFileOwners};
use task_lifecycle::function::{Executor, ExecutorType, Function, FunctionArguments};
use task_lifecycle::task::{Approve, Assign, Create, Done, Finish, Run, Stage, Task};
use task_lifecycle::task_state::{TaskResult, TaskState, TaskStatus};
use task_lifecycle::users::UserList;

fn users(names: &[&str]) -> UserList {
    let mut l = UserList::new();
    for n in names {
        l.insert((*n).to_owned());
    }
    l
}

fn owners(decl: &[(&str, &[&str])]) -> TaskFileOwners {
    let mut m = TaskFileOwners::new();
    for (name, us) in decl {
        m.assign((*name).to_owned(), users(us)).unwrap();
    }
    m
}

fn args(pairs: &[(&str, &str)]) -> FunctionArguments {
    let mut m = FunctionArguments::new();
    for (k, v) in pairs {
        m.assign((*k).to_owned(), (*v).to_owned()).unwrap();
    }
    m
}

fn names(ns: &[&str]) -> Vec<String> {
    ns.iter().map(|n| (*n).to_owned()).collect()
}

fn simple_function() -> Function {
    Function {
        id: "function-00000000".to_owned(),
        name: "f".to_owned(),
        public: true,
        owner: "frank".to_owned(),
        executor_type: ExecutorType::Python,
        payload: vec![1, 2, 3],
        arguments: names(&["x"]),
        inputs: names(&["in"]),
        outputs: names(&["out"]),
    }
}

fn input_file(id: &str, owner_names: &[&str]) -> InputFile {
    InputFile { external_id: id.to_owned(), owner: users(owner_names) }
}

fn output_file(id: &str, owner_names: &[&str]) -> OutputFile {
    OutputFile { external_id: id.to_owned(), owner: users(owner_names), cmac: None }
}

#[test]
fn single_user_happy_path() {
    let f = simple_function();
    let created = Task::<Create>::new(
        "alice".to_owned(),
        Executor::MesaPy,
        args(&[("x", "1")]),
        owners(&[("in", &["alice"])]),
        owners(&[("out", &["alice"])]),
        f,
    )
    .unwrap();
    let ts = created.into_state();
    assert_eq!(ts.status, TaskStatus::Created);
    assert!(ts.has_creator(&"alice".to_owned()));
    assert!(ts.has_participant(&"alice".to_owned()));

    let mut assign = Task::<Assign>::restore(ts).unwrap();
    assign
        .assign_input(&"alice".to_owned(), "in".to_owned(), input_file("input-1", &["alice"]))
        .unwrap();
    assign
        .assign_output(&"alice".to_owned(), "out".to_owned(), output_file("output-1", &["alice"]))
        .unwrap();
    let ts = assign.into_state();
    assert_eq!(ts.status, TaskStatus::DataAssigned);

    let approve = Task::<Approve>::restore(ts).unwrap();
    // single participant: auto-approved by the creator
    let stage = approve.advance().unwrap();
    let staged_task = stage
        .stage_for_running(&"alice".to_owned(), simple_function())
        .unwrap();
    assert_eq!(staged_task.executor, Executor::MesaPy);
    assert_eq!(staged_task.executor_type, ExecutorType::Python);
    assert_eq!(staged_task.function_name, "f".to_owned());
    assert_eq!(staged_task.function_payload, vec![1, 2, 3]);

    let ts = stage.into_state();
    assert_eq!(ts.status, TaskStatus::Approved);
    let mut ts = ts;
    ts.status = TaskStatus::Staged;
    let run = Task::<Run>::restore(ts).unwrap();
    let ts = run.into_state();
    assert_eq!(ts.status, TaskStatus::Staged);
    let mut ts = ts;
    ts.status = TaskStatus::Running;
    let mut finish = Task::<Finish>::restore(ts).unwrap();
    finish.update_output_cmac(&"out".to_owned(), &vec![9, 9]).unwrap();
    finish.update_result(TaskResult::Success(vec![42])).unwrap();
    let done = finish.advance().unwrap();
    let ts = done.into_state();
    assert_eq!(ts.status, TaskStatus::Finished);
    match ts.result {
        TaskResult::Success(p) => assert_eq!(p, vec![42]),
        _ => panic!("result should be the success payload"),
    }
}

fn partly_approved_private_task() -> TaskState {
    let f = Function {
        public: false,
        owner: "bob".to_owned(),
        arguments: names(&[]),
        inputs: names(&["in"]),
        outputs: names(&[]),
        ..simple_function()
    };
    let created = Task::<Create>::new(
        "alice".to_owned(),
        Executor::MesaPy,
        args(&[]),
        owners(&[("in", &["charlie"])]),
        owners(&[]),
        f,
    )
    .unwrap();
    let ts = created.into_state();
    assert!(ts.has_participant(&"alice".to_owned()));
    assert!(ts.has_participant(&"bob".to_owned()));
    assert!(ts.has_participant(&"charlie".to_owned()));

    let mut assign = Task::<Assign>::restore(ts).unwrap();
    assign
        .assign_input(&"charlie".to_owned(), "in".to_owned(), input_file("input-1", &["charlie"]))
        .unwrap();
    let mut approve = Task::<Approve>::restore(assign.into_state()).unwrap();
    approve.approve(&"alice".to_owned()).unwrap();
    let ts = approve.into_state();
    assert_eq!(ts.status, TaskStatus::DataAssigned);
    ts
}

#[test]
fn missing_approval_blocks_staging() {
    let blocked = Task::<Stage>::restore(partly_approved_private_task());
    assert_eq!(blocked.err().unwrap(), TaskError::NotReadyApproveStage);
    assert_eq!(
        TaskError::NotReadyApproveStage.message(),
        "Not ready: Approve -> Stage"
    );

    let mut approve = Task::<Approve>::restore(partly_approved_private_task()).unwrap();
    approve.approve(&"bob".to_owned()).unwrap();
    approve.approve(&"charlie".to_owned()).unwrap();
    let stage = approve.advance().unwrap();
    assert_eq!(stage.into_state().status, TaskStatus::Approved);
}

#[test]
fn wrong_owner_rejected_at_assignment() {
    let f = Function {
        arguments: names(&[]),
        inputs: names(&["in"]),
        outputs: names(&[]),
        ..simple_function()
    };
    let created = Task::<Create>::new(
        "alice".to_owned(),
        Executor::MesaPy,
        args(&[]),
        owners(&[("in", &["alice"])]),
        owners(&[]),
        f,
    )
    .unwrap();
    let mut assign = Task::<Assign>::restore(created.into_state()).unwrap();
    let e = assign
        .assign_input(&"bob".to_owned(), "in".to_owned(), input_file("input-1", &["bob"]))
        .err()
        .unwrap();
    assert_eq!(e, TaskError::OwnerMismatch);
    // the requester must also be in the file's own owner list
    let e = assign
        .assign_input(&"bob".to_owned(), "in".to_owned(), input_file("input-1", &["alice"]))
        .err()
        .unwrap();
    assert_eq!(e, TaskError::NotOwner);
    assert_eq!(e.message(), "requester is not in the owner list");
    // nothing was bound, so the state still persists as Created
    assert_eq!(assign.into_state().status, TaskStatus::Created);
}

#[test]
fn key_set_mismatch_at_creation() {
    let f = Function { arguments: names(&["x", "y"]), ..simple_function() };
    let e = Task::<Create>::new(
        "alice".to_owned(),
        Executor::MesaPy,
        args(&[("x", "1")]),
        owners(&[("in", &["alice"])]),
        owners(&[("out", &["alice"])]),
        f,
    )
    .err()
    .unwrap();
    assert_eq!(e, TaskError::ArgumentsMismatch);
    assert_eq!(e.message(), "function_arguments mismatch");
}

#[test]
fn input_and_output_key_mismatch_at_creation() {
    let f = simple_function();
    let e = Task::<Create>::new(
        "alice".to_owned(),
        Executor::MesaPy,
        args(&[("x", "1")]),
        owners(&[("other", &["alice"])]),
        owners(&[("out", &["alice"])]),
        f,
    )
    .err()
    .unwrap();
    assert_eq!(e, TaskError::InputKeysMismatch);
    assert_eq!(e.message(), "input keys mismatch");

    let f = simple_function();
    let e = Task::<Create>::new(
        "alice".to_owned(),
        Executor::MesaPy,
        args(&[("x", "1")]),
        owners(&[("in", &["alice"])]),
        owners(&[]),
        f,
    )
    .err()
    .unwrap();
    assert_eq!(e, TaskError::OutputKeysMismatch);
    assert_eq!(e.message(), "output keys mismatch");
}

#[test]
fn restore_with_auto_advance() {
    let f = Function {
        arguments: names(&[]),
        inputs: names(&["in"]),
        outputs: names(&[]),
        ..simple_function()
    };
    let created = Task::<Create>::new(
        "alice".to_owned(),
        Executor::MesaPy,
        args(&[]),
        owners(&[("in", &["alice"])]),
        owners(&[]),
        f,
    )
    .unwrap();
    let mut assign = Task::<Assign>::restore(created.into_state()).unwrap();
    assign
        .assign_input(&"alice".to_owned(), "in".to_owned(), input_file("input-1", &["alice"]))
        .unwrap();
    // persisted while still in the Assign view: status stays Created
    let mut ts = assign.into_state();
    ts.status = TaskStatus::Created;
    // restore straight to Stage: auto-advances through Assign and Approve
    let stage = Task::<Stage>::restore(ts).unwrap();
    assert_eq!(stage.into_state().status, TaskStatus::Approved);
}

#[test]
fn non_creator_cannot_stage() {
    let f = Function {
        arguments: names(&[]),
        inputs: names(&["in"]),
        outputs: names(&[]),
        ..simple_function()
    };
    let created = Task::<Create>::new(
        "alice".to_owned(),
        Executor::MesaPy,
        args(&[]),
        owners(&[("in", &["bob"])]),
        owners(&[]),
        f,
    )
    .unwrap();
    let mut assign = Task::<Assign>::restore(created.into_state()).unwrap();
    assign
        .assign_input(&"bob".to_owned(), "in".to_owned(), input_file("input-1", &["bob"]))
        .unwrap();
    let mut approve = Task::<Approve>::restore(assign.into_state()).unwrap();
    approve.approve(&"alice".to_owned()).unwrap();
    approve.approve(&"bob".to_owned()).unwrap();
    let stage = approve.advance().unwrap();
    let e = stage
        .stage_for_running(&"bob".to_owned(), simple_function())
        .err()
        .unwrap();
    assert_eq!(e, TaskError::NotCreator);
    assert_eq!(e.message(), "Requestor is not the task creator");
}

#[test]
fn double_assignment_fails() {
    let f = Function {
        arguments: names(&[]),
        inputs: names(&["in"]),
        outputs: names(&[]),
        ..simple_function()
    };
    let created = Task::<Create>::new(
        "alice".to_owned(),
        Executor::MesaPy,
        args(&[]),
        owners(&[("in", &["alice"])]),
        owners(&[]),
        f,
    )
    .unwrap();
    let mut assign = Task::<Assign>::restore(created.into_state()).unwrap();
    assign
        .assign_input(&"alice".to_owned(), "in".to_owned(), input_file("input-1", &["alice"]))
        .unwrap();
    let e = assign
        .assign_input(&"alice".to_owned(), "in".to_owned(), input_file("input-2", &["alice"]))
        .err()
        .unwrap();
    assert_eq!(e, TaskError::AlreadyAssigned);
}

#[test]
fn approve_rejects_non_participant() {
    let f = Function {
        arguments: names(&[]),
        inputs: names(&["in"]),
        outputs: names(&[]),
        ..simple_function()
    };
    let created = Task::<Create>::new(
        "alice".to_owned(),
        Executor::MesaPy,
        args(&[]),
        owners(&[("in", &["alice"])]),
        owners(&[]),
        f,
    )
    .unwrap();
    let mut assign = Task::<Assign>::restore(created.into_state()).unwrap();
    assign
        .assign_input(&"alice".to_owned(), "in".to_owned(), input_file("input-1", &["alice"]))
        .unwrap();
    let mut approve = Task::<Approve>::restore(assign.into_state()).unwrap();
    let e = approve.approve(&"mallory".to_owned()).err().unwrap();
    assert_eq!(e, TaskError::UnexpectedApprover);
    assert_eq!(e.message(), "Unexpected user trying to approve a task");
}

#[test]
fn restore_rejects_wrong_status() {
    let f = simple_function();
    let created = Task::<Create>::new(
        "alice".to_owned(),
        Executor::MesaPy,
        args(&[("x", "1")]),
        owners(&[("in", &["alice"])]),
        owners(&[("out", &["alice"])]),
        f,
    )
    .unwrap();
    let mut ts = created.into_state();
    ts.status = TaskStatus::Running;
    let e = Task::<Assign>::restore(ts).err().unwrap();
    assert_eq!(e, TaskError::CannotRestore(Phase::Assign));
    assert_eq!(e.message(), "Cannot restore to Assign from saved state");
}

#[test]
fn restore_errors_name_the_requested_phase() {
    let make = || {
        Task::<Create>::new(
            "alice".to_owned(),
            Executor::MesaPy,
            args(&[("x", "1")]),
            owners(&[("in", &["alice"])]),
            owners(&[("out", &["alice"])]),
            simple_function(),
        )
        .unwrap()
        .into_state()
    };
    let e = Task::<Run>::restore(make()).err().unwrap();
    assert_eq!(e, TaskError::CannotRestore(Phase::Run));
    assert_eq!(e.message(), "Cannot restore to Run from saved state");
    let e = Task::<Finish>::restore(make()).err().unwrap();
    assert_eq!(e, TaskError::CannotRestore(Phase::Finish));
    assert_eq!(e.message(), "Cannot restore to Finish from saved state");
    let e = Task::<Done>::restore(make()).err().unwrap();
    assert_eq!(e, TaskError::CannotRestore(Phase::Done));
    assert_eq!(e.message(), "Cannot restore to Done from saved state");
}

#[test]
fn restore_to_approve_requires_all_data() {
    let f = Function {
        arguments: names(&[]),
        inputs: names(&["in"]),
        outputs: names(&[]),
        ..simple_function()
    };
    let created = Task::<Create>::new(
        "alice".to_owned(),
        Executor::MesaPy,
        args(&[]),
        owners(&[("in", &["alice"])]),
        owners(&[]),
        f,
    )
    .unwrap();
    let ts = created.into_state();
    let e = Task::<Approve>::restore(ts).err().unwrap();
    assert_eq!(e, TaskError::NotReadyAssignApprove);
    assert_eq!(e.message(), "Not ready: Assign -> Approve");
}

#[test]
fn update_cmac_requires_assigned_output() {
    let f = Function {
        arguments: names(&[]),
        inputs: names(&[]),
        outputs: names(&["out"]),
        ..simple_function()
    };
    let created = Task::<Create>::new(
        "alice".to_owned(),
        Executor::MesaPy,
        args(&[]),
        owners(&[]),
        owners(&[("out", &["alice"])]),
        f,
    )
    .unwrap();
    let mut assign = Task::<Assign>::restore(created.into_state()).unwrap();
    assign
        .assign_output(&"alice".to_owned(), "out".to_owned(), output_file("output-1", &["alice"]))
        .unwrap();
    let mut ts = assign.into_state();
    ts.status = TaskStatus::Running;
    let mut finish = Task::<Finish>::restore(ts).unwrap();
    let e = finish.update_output_cmac(&"nope".to_owned(), &vec![1]).err().unwrap();
    assert_eq!(e, TaskError::UnknownName);
    finish.update_output_cmac(&"out".to_owned(), &vec![7, 7]).unwrap();
    let ts = finish.into_state();
    assert_eq!(ts.status, TaskStatus::Running);
}

#[test]
fn phase_wrappers_persist_their_own_phase() {
    let f = simple_function();
    let created = Task::<Create>::new(
        "alice".to_owned(),
        Executor::Builtin,
        args(&[("x", "1")]),
        owners(&[("in", &["alice"])]),
        owners(&[("out", &["alice"])]),
        f,
    )
    .unwrap();
    let ts = created.into_state();
    assert!(ts.everyone_approved());
    assert!(!ts.all_data_assigned());

    // each wrapper constructor accepts the record as it stands; persisting
    // writes the completed phase of the view, not of the record
    let ts = Task::<Assign>::new(ts).unwrap().into_state();
    assert_eq!(ts.status, TaskStatus::Created);
    let ts = Task::<Stage>::new(ts).unwrap().into_state();
    assert_eq!(ts.status, TaskStatus::Approved);
    let ts = Task::<Run>::new(ts).unwrap().into_state();
    assert_eq!(ts.status, TaskStatus::Staged);
    let ts = Task::<Finish>::new(ts).unwrap().into_state();
    assert_eq!(ts.status, TaskStatus::Running);
    let ts = Task::<Done>::new(ts).unwrap().into_state();
    assert_eq!(ts.status, TaskStatus::Finished);
    // an Approve view of a task whose quorum is reached advances on persist
    let ts = Task::<Approve>::new(ts).unwrap().into_state();
    assert_eq!(ts.status, TaskStatus::Approved);
}

#[test]
fn each_task_gets_a_fresh_id() {
    let make = || {
        Task::<Create>::new(
            "alice".to_owned(),
            Executor::MesaPy,
            args(&[("x", "1")]),
            owners(&[("in", &["alice"])]),
            owners(&[("out", &["alice"])]),
            simple_function(),
        )
        .unwrap()
        .into_state()
    };
    let a = make();
    let b = make();
    assert_ne!(a.task_id, b.task_id);
    assert_eq!(a.uuid(), a.task_id);
}

#[test]
fn done_keeps_failed_mark() {
    let f = simple_function();
    let created = Task::<Create>::new(
        "alice".to_owned(),
        Executor::MesaPy,
        args(&[("x", "1")]),
        owners(&[("in", &["alice"])]),
        owners(&[("out", &["alice"])]),
        f,
    )
    .unwrap();
    let mut ts = created.into_state();
    ts.status = TaskStatus::Failed;
    ts.result = TaskResult::Failure("executor died".to_owned());
    let done = Task::<Done>::restore(ts).unwrap();
    assert_eq!(done.into_state().status, TaskStatus::Failed);
}
