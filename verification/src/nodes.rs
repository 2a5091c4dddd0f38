//! What the protocol adapter republishes: one node for each variable's
//! measured value, one for its busy flag, and one node for the status.

use vstd::prelude::*;
use crate::fabric::try_load;
use crate::fabric::StateChannel;
use crate::state::SharedState;
use crate::state::Snapshot;
use crate::status::ControlStatus;

verus! {

/// Names a node of the tree.
#[derive(Clone, Copy, Debug, PartialEq, Eq, Structural)]
pub enum NodeId {
    /// The measured value of the variable with this index.
    Position(usize),
    /// The busy flag of the variable with this index.
    Busy(usize),
    /// The overall status.
    Status,
}

/// The value written to a node.
#[derive(Clone, Copy, Debug, PartialEq, Eq, Structural)]
pub enum NodeValue {
    /// A quantity, in micro-units.
    Number(i64),
    Flag(bool),
    /// The status; shown by its label.
    Tag(ControlStatus),
}

/// One write to the node tree.
#[derive(Clone, Copy, Debug, PartialEq, Eq, Structural)]
pub struct NodeUpdate {
    pub node: NodeId,
    pub value: NodeValue,
}

/// The `i`-th write for a snapshot: value and busy flag of each variable in
/// turn, and the status last.
pub open spec fn update_at(snapshot: Snapshot, i: int) -> NodeUpdate {
    if i == 2 * snapshot.variables.len() {
        NodeUpdate { node: NodeId::Status, value: NodeValue::Tag(snapshot.control_state) }
    } else if i % 2 == 0 {
        NodeUpdate {
            node: NodeId::Position((i / 2) as usize),
            value: NodeValue::Number(snapshot.variables[i / 2].value),
        }
    } else {
        NodeUpdate {
            node: NodeId::Busy((i / 2) as usize),
            value: NodeValue::Flag(snapshot.variables[i / 2].busy),
        }
    }
}

/// All writes for a snapshot: two per variable and one for the status.
pub open spec fn updates_of(snapshot: Snapshot) -> Seq<NodeUpdate> {
    Seq::new(2 * snapshot.variables.len() + 1, |i: int| update_at(snapshot, i))
}

/// Lists the writes that bring the node tree up to a snapshot.
pub fn node_updates(snapshot: &SharedState) -> (list: Vec<NodeUpdate>)
    ensures
        list@ == updates_of(snapshot@),
{
    let mut list: Vec<NodeUpdate> = Vec::new();
    let count = snapshot.variables.len();
    let mut i: usize = 0;
    while i < count
        invariant
            count == snapshot@.variables.len(),
            i <= count,
            list@.len() == 2 * i,
            forall|k: int| 0 <= k < 2 * i ==> list@[k] == update_at(snapshot@, k),
        decreases count - i,
    {
        let variable = snapshot.variables[i];
        list.push(NodeUpdate { node: NodeId::Position(i), value: NodeValue::Number(variable.value) });
        list.push(NodeUpdate { node: NodeId::Busy(i), value: NodeValue::Flag(variable.busy) });
        i += 1;
    }
    list.push(NodeUpdate { node: NodeId::Status, value: NodeValue::Tag(snapshot.control_state) });
    assert(list@ =~= updates_of(snapshot@));
    list
}

/// One poll of the protocol adapter: the writes for the latest snapshot, or
/// `None` where the cell cannot be read at this moment and the poll is
/// skipped. The poll never waits for the writer.
pub fn poll_nodes(cell: &StateChannel) -> (r: Option<Vec<NodeUpdate>>)
    ensures
        r matches Some(list) ==> exists|snapshot: Snapshot| list@ == #[trigger] updates_of(snapshot),
{
    match try_load(cell) {
        Some(snapshot) => {
            let list = node_updates(&snapshot);
            assert(list@ == updates_of(snapshot@));
            Some(list)
        },
        None => None,
    }
}

} // verus!
