//! The control-status tag carried by every published snapshot.

use vstd::prelude::*;

verus! {

/// Where the supervisory loop stands.
#[derive(Clone, Copy, Debug, PartialEq, Eq, Structural)]
pub enum ControlStatus {
    Stopped,
    Running,
    Error,
}

impl ControlStatus {
    /// The tag as a sequence of characters.
    pub open spec fn text(self) -> Seq<char> {
        match self {
            ControlStatus::Stopped => "Stopped"@,
            ControlStatus::Running => "Running"@,
            ControlStatus::Error => "Error"@,
        }
    }

    /// The human-readable tag shown to operators and protocol clients.
    pub fn label(&self) -> (s: String)
        ensures
            s@ == self.text(),
    {
        match self {
            ControlStatus::Stopped => "Stopped".to_string(),
            ControlStatus::Running => "Running".to_string(),
            ControlStatus::Error => "Error".to_string(),
        }
    }
}

} // verus!
