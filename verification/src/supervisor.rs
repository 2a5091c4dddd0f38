//! The supervisory state machine: which status follows which, what is
//! recorded on the way, and what the loop has to do next.

use vstd::prelude::*;
use crate::clock::now_millis;
use crate::executor::CycleOutcome;
use crate::executor::ExecState;
use crate::executor::Fault;
use crate::signals::drain;
use crate::signals::StartChannel;
use crate::state::stamp;
use crate::state::Snapshot;
use crate::status::ControlStatus;

verus! {

/// What the supervisory loop is told.
#[derive(Clone, Copy, Debug, PartialEq, Eq, Structural)]
pub enum Event {
    /// A start signal arrived.
    StartSignal,
    /// The cycle executor returned in success.
    RunCompleted,
    /// The cycle executor returned a fault.
    RunFaulted(Fault),
    /// A stop signal arrived within the restart timeout.
    StopSignal,
    /// The restart timeout passed without a stop signal.
    RestartTimeout,
}

/// What the supervisory loop has to do next.
#[derive(Clone, Copy, Debug, PartialEq, Eq, Structural)]
pub enum Action {
    /// Wait for a start signal, however long it takes.
    AwaitStart,
    /// Call the cycle executor.
    Run,
    /// Wait for a stop signal, at most `timeout` milliseconds.
    AwaitStop { timeout: u64 },
}

/// The event that a cycle's outcome raises: none while the run goes on,
/// completion after a stop, the fault after a fault.
pub open spec fn raised_by(outcome: CycleOutcome) -> Option<Event> {
    match outcome {
        CycleOutcome::Published => None,
        CycleOutcome::Halted => Some(Event::RunCompleted),
        CycleOutcome::Faulted(fault) => Some(Event::RunFaulted(fault)),
    }
}

/// Tells how a run goes on after a cycle: `None` to cycle again, else the
/// event that ends the run.
pub fn run_ends(outcome: CycleOutcome) -> (event: Option<Event>)
    ensures
        event == raised_by(outcome),
{
    match outcome {
        CycleOutcome::Published => None,
        CycleOutcome::Halted => Some(Event::RunCompleted),
        CycleOutcome::Faulted(fault) => Some(Event::RunFaulted(fault)),
    }
}

/// The status changes that the state machine allows.
pub open spec fn edge(from: ControlStatus, to: ControlStatus) -> bool {
    ||| from == ControlStatus::Stopped && to == ControlStatus::Running
    ||| from == ControlStatus::Running && to == ControlStatus::Stopped
    ||| from == ControlStatus::Running && to == ControlStatus::Error
    ||| from == ControlStatus::Error && to == ControlStatus::Running
    ||| from == ControlStatus::Error && to == ControlStatus::Stopped
}

/// The status after an event. An event that does not apply in a status
/// leaves it as it is.
pub open spec fn next_status(status: ControlStatus, event: Event) -> ControlStatus {
    match (status, event) {
        (ControlStatus::Stopped, Event::StartSignal) => ControlStatus::Running,
        (ControlStatus::Running, Event::RunCompleted) => ControlStatus::Stopped,
        (ControlStatus::Running, Event::RunFaulted(_)) => ControlStatus::Error,
        (ControlStatus::Error, Event::RestartTimeout) => ControlStatus::Running,
        (ControlStatus::Error, Event::StopSignal) => ControlStatus::Stopped,
        _ => status,
    }
}

/// The snapshot after an event. A fault is recorded with its text and a
/// timestamp; every other change of status clears the error text; an event
/// that does not apply changes nothing.
pub open spec fn after(snapshot: Snapshot, event: Event, now: int) -> Snapshot {
    let next = next_status(snapshot.control_state, event);
    if next == snapshot.control_state {
        snapshot
    } else {
        match event {
            Event::RunFaulted(fault) => Snapshot {
                control_state: next,
                error: Some(fault.cause.text()),
                timestamp: stamp(snapshot.timestamp, now),
                ..snapshot
            },
            _ => Snapshot { control_state: next, error: None, ..snapshot },
        }
    }
}

/// What the loop does in a status.
pub open spec fn directive(status: ControlStatus, restart_timeout: u64) -> Action {
    match status {
        ControlStatus::Stopped => Action::AwaitStart,
        ControlStatus::Running => Action::Run,
        ControlStatus::Error => Action::AwaitStop { timeout: restart_timeout },
    }
}

/// The statuses that a sequence of events leads through, the first one
/// counted in.
pub open spec fn statuses(status: ControlStatus, events: Seq<Event>) -> Seq<ControlStatus>
    decreases events.len(),
{
    if events.len() == 0 {
        seq![status]
    } else {
        seq![status] + statuses(next_status(status, events[0]), events.drop_first())
    }
}

/// The change from the `i`-th status of `visited` to the one after it
/// is no change at all or an allowed edge.
pub open spec fn allowed_at(visited: Seq<ControlStatus>, i: int) -> bool {
    visited[i] == visited[i + 1] || edge(visited[i], visited[i + 1])
}

/// Whatever events arrive in whatever order, the status only ever changes
/// along an allowed edge.
pub proof fn lemma_only_allowed_edges(status: ControlStatus, events: Seq<Event>)
    ensures
        statuses(status, events).len() == events.len() + 1,
        statuses(status, events)[0] == status,
        forall|i: int|
            0 <= i < events.len() ==> #[trigger] allowed_at(statuses(status, events), i),
    decreases events.len(),
{
    if events.len() > 0 {
        let next = next_status(status, events[0]);
        let rest = events.drop_first();
        lemma_only_allowed_edges(next, rest);
        let visited = statuses(status, events);
        let tail = statuses(next, rest);
        assert(visited =~= seq![status] + tail);
        assert forall|i: int| 0 <= i < events.len() implies #[trigger] allowed_at(visited, i) by {
            if i > 0 {
                assert(allowed_at(tail, i - 1));
                assert(visited[i] == tail[i - 1]);
                assert(visited[i + 1] == tail[i - 1 + 1]);
            }
        }
    }
}

/// A fault that ends a run is shown at once: the status is `Error` and the
/// error text is the fault's, which is never empty.
pub proof fn lemma_fault_is_shown(snapshot: Snapshot, fault: Fault, now: int)
    requires
        snapshot.control_state == ControlStatus::Running,
    ensures
        after(snapshot, Event::RunFaulted(fault), now).control_state == ControlStatus::Error,
        after(snapshot, Event::RunFaulted(fault), now).error == Some(fault.cause.text()),
        fault.cause.text().len() > 0,
        after(snapshot, Event::RunFaulted(fault), now).timestamp >= snapshot.timestamp,
{
    fault.cause.lemma_text_not_empty();
}

/// In `Error` the loop waits for a stop signal no longer than the restart
/// timeout. When the timeout passes the loop is `Running` again with the
/// error text cleared, and a run that completes leaves it `Stopped` and
/// still clear.
pub proof fn lemma_error_is_retried(snapshot: Snapshot, restart_timeout: u64, now: int)
    requires
        snapshot.control_state == ControlStatus::Error,
    ensures
        directive(snapshot.control_state, restart_timeout) == (Action::AwaitStop {
            timeout: restart_timeout,
        }),
        after(snapshot, Event::RestartTimeout, now).control_state == ControlStatus::Running,
        after(snapshot, Event::RestartTimeout, now).error is None,
        directive(after(snapshot, Event::RestartTimeout, now).control_state, restart_timeout)
            == Action::Run,
        after(
            after(snapshot, Event::RestartTimeout, now),
            Event::RunCompleted,
            now,
        ).control_state == ControlStatus::Stopped,
        after(after(snapshot, Event::RestartTimeout, now), Event::RunCompleted, now).error is None,
{
}

/// No event breaks the rule that the error text is present exactly in
/// status `Error`, and no event moves the timestamp backwards.
pub proof fn lemma_after_keeps_consistent(snapshot: Snapshot, event: Event, now: int)
    requires
        snapshot.consistent(),
    ensures
        after(snapshot, event, now).consistent(),
        after(snapshot, event, now).control_state == next_status(snapshot.control_state, event),
        after(snapshot, event, now).timestamp >= snapshot.timestamp,
        after(snapshot, event, now).variables == snapshot.variables,
{
    if let Event::RunFaulted(fault) = event {
        fault.cause.lemma_text_not_empty();
    }
}

impl ExecState {
    /// Takes one step of the state machine on plain values and tells what
    /// the loop has to do next. `now` is read for a fault alone.
    pub fn react_at(&mut self, event: Event, now: i64) -> (action: Action)
        requires
            old(self).wf(),
        ensures
            final(self).same_wiring(old(self)),
            final(self).shared@ == after(old(self).shared@, event, now as int),
            action == directive(final(self).shared.control_state, final(self).config.restart_timeout),
            final(self).wf(),
    {
        proof {
            lemma_after_keeps_consistent(self.shared@, event, now as int);
        }
        match (self.shared.control_state, event) {
            (ControlStatus::Stopped, Event::StartSignal) => {
                self.shared.control_state = ControlStatus::Running;
                self.shared.error = None;
            },
            (ControlStatus::Running, Event::RunCompleted) => {
                self.shared.control_state = ControlStatus::Stopped;
                self.shared.error = None;
            },
            (ControlStatus::Running, Event::RunFaulted(fault)) => {
                self.shared.control_state = ControlStatus::Error;
                self.shared.error = Some(fault.cause.message());
                if now > self.shared.timestamp {
                    self.shared.timestamp = now;
                }
            },
            (ControlStatus::Error, Event::RestartTimeout) => {
                self.shared.control_state = ControlStatus::Running;
                self.shared.error = None;
            },
            (ControlStatus::Error, Event::StopSignal) => {
                self.shared.control_state = ControlStatus::Stopped;
                self.shared.error = None;
            },
            _ => {},
        }
        match self.shared.control_state {
            ControlStatus::Stopped => Action::AwaitStart,
            ControlStatus::Running => Action::Run,
            ControlStatus::Error => Action::AwaitStop { timeout: self.config.restart_timeout },
        }
    }

    /// Takes one step of the state machine and publishes the result. On the
    /// way from `Stopped` to `Running` the signals still queued in both
    /// mailboxes are removed first, so that none of them is acted on later.
    /// A fault is stamped with the clock's reading.
    pub fn react(&mut self, event: Event, rx_start: &StartChannel) -> (action: Action)
        requires
            old(self).wf(),
        ensures
            final(self).same_wiring(old(self)),
            exists|now: i64| final(self).shared@ == #[trigger] after(old(self).shared@, event, now as int),
            action == directive(final(self).shared.control_state, final(self).config.restart_timeout),
            final(self).wf(),
    {
        let starting = matches!(self.shared.control_state, ControlStatus::Stopped) && matches!(
            event,
            Event::StartSignal
        );
        if starting {
            drain(&self.rx_stop);
            drain(rx_start);
        }
        let now = match event {
            Event::RunFaulted(_) => now_millis(),
            _ => self.shared.timestamp,
        };
        let action = self.react_at(event, now);
        self.publish();
        assert(self.shared@ == after(old(self).shared@, event, now as int));
        action
    }
}

} // verus!
