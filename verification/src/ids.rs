//! Identifiers, and the one call that mints a fresh one.

use vstd::prelude::*;

verus! {

/// A stable, prefixed string id that references a foreign record.
pub type ExternalID = String;

/// A task's unique 128-bit identity, generated freshly at creation.
pub type TaskID = uuid::Uuid;

#[verifier::external_type_specification]
#[verifier::external_body]
pub struct ExUuid(uuid::Uuid);

/// Relies on uuid::Uuid::new_v4: a freshly generated random identifier.
/// The value is random, so nothing is promised of it.
#[verifier::external_body]
pub fn fresh_task_id() -> uuid::Uuid {
    uuid::Uuid::new_v4()
}

} // verus!
