//! Task lifecycle core of a multi-party job platform.
//!
//! A task is jointly defined by mutually distrustful users: one supplies the
//! function, others supply input files or claim output files, and every
//! involved party must approve before the task is dispatched.  This crate
//! holds the persisted task record, the phase-typed views over it, and the
//! transition engine that gates every move through the lifecycle.

pub mod errors;
pub mod files;
pub mod function;
pub mod ids;
pub mod laws;
pub mod named_map;
pub mod task;
pub mod task_state;
pub mod users;
