//! The publication cell: one writer replaces the snapshot as a whole, any
//! number of readers copy it out without ever holding the writer up.

use vstd::prelude::*;
use std::sync::Arc;
use std::sync::RwLock;
use crate::quantity::Target;
use crate::state::SharedState;

verus! {

#[verifier::external_type_specification]
#[verifier::external_body]
#[verifier::reject_recursive_types(T)]
pub struct ExRwLock<T: ?Sized>(RwLock<T>);

/// The shared cell that holds the latest published snapshot.
pub type StateChannel = Arc<RwLock<SharedState>>;

/// The shared cell that holds the operator's latest setpoints, one per
/// process variable. The operator interface writes it; the control loop
/// only reads it.
pub type SetpointCell = Arc<RwLock<Vec<Target>>>;

/// Calls `std::sync::RwLock::write` and replaces the cell's content with
/// `snapshot` as a whole. A lock poisoned by a thread that panicked while
/// it held the lock is written all the same. Nothing is claimed of the content afterwards:
/// other threads share the cell.
#[verifier::external_body]
pub(crate) fn store(cell: &StateChannel, snapshot: SharedState) {
    match cell.write() {
        Ok(mut slot) => *slot = snapshot,
        Err(poisoned) => *poisoned.into_inner() = snapshot,
    }
}

/// Calls `std::sync::RwLock::try_read` and copies the content out. Gives
/// `None` when read access cannot be had at this moment. Nothing is claimed
/// of the snapshot that comes back.
#[verifier::external_body]
pub(crate) fn try_load(cell: &StateChannel) -> (r: Option<SharedState>) {
    match cell.try_read() {
        Ok(slot) => Some(slot.clone()),
        Err(_) => None,
    }
}

/// Calls `std::sync::RwLock::read` and copies the setpoints out as one
/// whole, so that no half-written value is ever seen. Nothing is claimed of
/// the values: the operator interface may write at any time.
#[verifier::external_body]
pub(crate) fn read_setpoints(cell: &SetpointCell) -> (targets: Vec<Target>) {
    match cell.read() {
        Ok(slot) => slot.clone(),
        Err(poisoned) => poisoned.into_inner().clone(),
    }
}

} // verus!
