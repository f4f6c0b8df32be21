//! The function descriptor a task is created against.

use vstd::prelude::*;

use crate::ids::ExternalID;
use crate::named_map::NamedMap;

verus! {

/// The executor variant chosen by the task creator.
#[derive(Clone, Copy, Debug, PartialEq, Eq, Structural)]
pub enum Executor {
    MesaPy,
    Builtin,
}

/// The kind of runtime a function is dispatched to.
#[derive(Clone, Copy, Debug, PartialEq, Eq, Structural)]
pub enum ExecutorType {
    Python,
    Native,
}

/// The name→value argument bindings supplied by the creator.
pub type FunctionArguments = NamedMap<String>;

/// An immutable record of the chosen function: identity, owner, visibility,
/// and the declared argument, input and output parameter names.
pub struct Function {
    pub id: ExternalID,
    pub name: String,
    pub public: bool,
    pub owner: String,
    pub executor_type: ExecutorType,
    pub payload: Vec<u8>,
    pub arguments: Vec<String>,
    pub inputs: Vec<String>,
    pub outputs: Vec<String>,
}

} // verus!
