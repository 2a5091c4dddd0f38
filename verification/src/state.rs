//! The published snapshot of process state.

use vstd::prelude::*;
use crate::status::ControlStatus;

verus! {

/// What one process variable shows after a cycle: the target that was
/// applied, the measured value and whether the variable is still moving.
#[derive(Clone, Copy, Debug, PartialEq, Eq, Structural)]
pub struct Measured {
    pub target: i64,
    pub value: i64,
    pub busy: bool,
}

/// One complete snapshot of process state. A snapshot is replaced as a
/// whole and never changed field by field once it is published.
#[derive(Clone, Debug, PartialEq)]
pub struct SharedState {
    /// One entry per process variable.
    pub variables: Vec<Measured>,
    pub control_state: ControlStatus,
    /// The text of the last fault; present exactly while in `Error`.
    pub error: Option<String>,
    /// Milliseconds since the Unix epoch at the last update.
    pub timestamp: i64,
}

/// The mathematical content of a `SharedState`.
pub struct Snapshot {
    pub variables: Seq<Measured>,
    pub control_state: ControlStatus,
    pub error: Option<Seq<char>>,
    pub timestamp: int,
}

impl View for SharedState {
    type V = Snapshot;

    open spec fn view(&self) -> Snapshot {
        Snapshot {
            variables: self.variables@,
            control_state: self.control_state,
            error: match self.error {
                Some(text) => Some(text@),
                None => None,
            },
            timestamp: self.timestamp as int,
        }
    }
}

/// A variable at rest at zero.
pub open spec fn at_rest() -> Measured {
    Measured { target: 0, value: 0, busy: false }
}

impl Snapshot {
    /// The snapshot a freshly created loop shows: `count` variables at rest,
    /// status `Stopped`, no fault.
    pub open spec fn initial(count: nat, now: int) -> Snapshot {
        Snapshot {
            variables: Seq::new(count, |i: int| at_rest()),
            control_state: ControlStatus::Stopped,
            error: None,
            timestamp: now,
        }
    }

    /// The error text is present exactly in status `Error`, and is not empty.
    pub open spec fn consistent(self) -> bool {
        match self.error {
            Some(text) => self.control_state == ControlStatus::Error && text.len() > 0,
            None => self.control_state != ControlStatus::Error,
        }
    }
}

/// The later of the previous timestamp and the clock reading, so that
/// published timestamps never run backwards.
pub open spec fn stamp(previous: int, now: int) -> int {
    if now > previous {
        now
    } else {
        previous
    }
}

impl SharedState {
    /// The snapshot of a freshly created loop.
    pub fn initial(count: usize, now: i64) -> (s: SharedState)
        ensures
            s@ == Snapshot::initial(count as nat, now as int),
    {
        let mut variables: Vec<Measured> = Vec::new();
        let mut i: usize = 0;
        while i < count
            invariant
                i <= count,
                variables@.len() == i,
                forall|k: int| 0 <= k < i ==> variables@[k] == at_rest(),
            decreases count - i,
        {
            variables.push(Measured { target: 0, value: 0, busy: false });
            i += 1;
        }
        assert(variables@ =~= Seq::new(count as nat, |i: int| at_rest()));
        SharedState {
            variables,
            control_state: ControlStatus::Stopped,
            error: None,
            timestamp: now,
        }
    }

    /// A copy with the same content.
    pub fn snapshot(&self) -> (s: SharedState)
        ensures
            s@ == self@,
    {
        let mut variables: Vec<Measured> = Vec::new();
        let mut i: usize = 0;
        while i < self.variables.len()
            invariant
                i <= self.variables@.len(),
                variables@ == self.variables@.subrange(0, i as int),
            decreases self.variables@.len() - i,
        {
            variables.push(self.variables[i]);
            assert(variables@ =~= self.variables@.subrange(0, i + 1));
            i += 1;
        }
        assert(variables@ =~= self.variables@);
        let error = match &self.error {
            Some(text) => Some(text.clone()),
            None => None,
        };
        SharedState {
            variables,
            control_state: self.control_state,
            error,
            timestamp: self.timestamp,
        }
    }
}

} // verus!
