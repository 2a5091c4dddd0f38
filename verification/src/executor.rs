//! The control cycle: one backend step per process variable, gathered into
//! the next snapshot.

use vstd::prelude::*;
use crate::backend::actuator_command;
use crate::backend::command_for;
use crate::backend::step;
use crate::backend::step_outcome;
use crate::backend::Command;
use crate::backend::DeviceFault;
use crate::backend::Reply;
use crate::clock::now_millis;
use crate::config::Backend;
use crate::config::Config;
use crate::fabric::read_setpoints;
use crate::fabric::store;
use crate::fabric::SetpointCell;
use crate::fabric::StateChannel;
use crate::quantity::stride;
use crate::quantity::stride_of;
use crate::quantity::Target;
use crate::signals::poll;
use crate::signals::Polled;
use crate::signals::StopChannel;
use crate::state::stamp;
use crate::state::Measured;
use crate::state::SharedState;
use crate::state::Snapshot;
use crate::status::ControlStatus;

verus! {

/// A device fault together with the process variable that raised it.
#[derive(Clone, Copy, Debug, PartialEq, Eq, Structural)]
pub struct Fault {
    /// Index of the process variable.
    pub variable: usize,
    pub cause: DeviceFault,
}

/// How one control cycle ended.
#[derive(Clone, Copy, Debug, PartialEq, Eq, Structural)]
pub enum CycleOutcome {
    /// Every variable was stepped and the snapshot was renewed.
    Published,
    /// A stop was requested: nothing was stepped, the run ends in success.
    Halted,
    /// A backend raised a fault: the snapshot is as before, the run ends.
    Faulted(Fault),
}

/// Everything the supervisory loop owns: the working copy of the snapshot,
/// the handles it publishes and listens through, and the configuration.
#[derive(Debug)]
pub struct ExecState {
    /// The working copy; what was published last.
    pub shared: SharedState,
    /// Where snapshots are published.
    pub out_channel: StateChannel,
    /// Where stop signals arrive.
    pub rx_stop: StopChannel,
    /// Where the operator's setpoints are read from.
    pub target_manual: SetpointCell,
    pub config: Config,
}

/// What the loop read at the start of a cycle.
#[derive(Debug)]
pub struct Plan {
    /// Whether a stop signal was waiting.
    pub stop: bool,
    /// Whether the stop mailbox has lost every sender, so that no stop
    /// signal can ever arrive; never set together with `stop`.
    pub severed: bool,
    /// The targets of this cycle, one per process variable.
    pub targets: Vec<Target>,
}

/// The target of variable `i`; a variable without a target has an invalid
/// one.
pub open spec fn target_at(targets: Seq<Target>, i: int) -> Target {
    if 0 <= i < targets.len() {
        targets[i]
    } else {
        Target::Invalid
    }
}

/// The device's answer for variable `i`; an answer that is missing counts
/// as a command that timed out.
pub open spec fn reply_at(replies: Seq<Reply>, i: int) -> Reply {
    if 0 <= i < replies.len() {
        replies[i]
    } else {
        Err(DeviceFault::Timeout)
    }
}

impl ExecState {
    /// The working copy has one entry per configured variable and carries
    /// an error text exactly in status `Error`.
    pub open spec fn wf(&self) -> bool {
        &&& self.shared@.variables.len() == self.config.axes()
        &&& self.shared@.consistent()
    }

    /// Configuration and handles are those of `before`.
    pub open spec fn same_wiring(&self, before: &ExecState) -> bool {
        &&& self.config == before.config
        &&& self.out_channel == before.out_channel
        &&& self.rx_stop == before.rx_stop
        &&& self.target_manual == before.target_manual
    }

    /// What the backend makes of variable `i` in one cycle.
    pub open spec fn stepped(&self, targets: Seq<Target>, replies: Seq<Reply>, i: int) -> Result<
        Measured,
        DeviceFault,
    > {
        step_outcome(
            self.config.backend,
            self.shared@.variables[i].value,
            target_at(targets, i),
            self.config.limits@[i],
            stride_of(self.config.limits@[i].max_speed as int, self.config.cycle_time as int) as u64,
            reply_at(replies, i),
        )
    }

    /// Every variable steps without a fault.
    pub open spec fn runs_clean(&self, targets: Seq<Target>, replies: Seq<Reply>) -> bool {
        forall|i: int| 0 <= i < self.config.axes() ==> (#[trigger] self.stepped(targets, replies, i)) is Ok
    }

    /// `fault` is the first fault of the cycle, in the order of the
    /// variables.
    pub open spec fn first_fault(&self, targets: Seq<Target>, replies: Seq<Reply>, fault: Fault) -> bool {
        &&& fault.variable < self.config.axes()
        &&& self.stepped(targets, replies, fault.variable as int) == Err::<Measured, DeviceFault>(
            fault.cause,
        )
        &&& forall|k: int|
            0 <= k < fault.variable ==> (#[trigger] self.stepped(targets, replies, k)) is Ok
    }

    /// The snapshot after a cycle without a fault: every variable as its
    /// step left it, under a timestamp that is `now` unless the clock ran
    /// backwards.
    pub open spec fn renewed(&self, targets: Seq<Target>, replies: Seq<Reply>, now: int) -> Snapshot {
        Snapshot {
            variables: Seq::new(
                self.config.axes(),
                |i: int| self.stepped(targets, replies, i).unwrap(),
            ),
            timestamp: stamp(self.shared@.timestamp, now),
            ..self.shared@
        }
    }

    /// The relation between the state before and after one cycle, and its
    /// outcome.
    pub open spec fn cycled(
        &self,
        after: &ExecState,
        stop: bool,
        targets: Seq<Target>,
        replies: Seq<Reply>,
        now: int,
        outcome: CycleOutcome,
    ) -> bool {
        &&& after.same_wiring(self)
        &&& match outcome {
            CycleOutcome::Halted => stop && after.shared@ == self.shared@,
            CycleOutcome::Faulted(fault) => {
                &&& !stop
                &&& self.first_fault(targets, replies, fault)
                &&& after.shared@ == self.shared@
            },
            CycleOutcome::Published => {
                &&& !stop
                &&& self.runs_clean(targets, replies)
                &&& after.shared@ == self.renewed(targets, replies, now)
            },
        }
    }

    /// The command to transmit next in a cycle, given the answers to the
    /// commands transmitted so far. Only the real actuator is commanded,
    /// one variable after the other in their order, and nothing more is
    /// transmitted once a stop was requested, an answer was a fault, a
    /// target gave no command, or every variable had its turn.
    pub open spec fn next_command_of(&self, stop: bool, targets: Seq<Target>, replies: Seq<Reply>) -> Option<
        (usize, Command),
    > {
        let turn = replies.len() as int;
        if !stop && self.config.backend == Backend::Zaber && turn < self.config.axes() && (forall|
            k: int,
        |
            0 <= k < turn ==> (#[trigger] replies[k]) is Ok) {
            match command_for(target_at(targets, turn), self.config.limits@[turn]) {
                Ok(command) => Some((turn as usize, command)),
                Err(_) => None,
            }
        } else {
            None
        }
    }

    /// Tells whether the state is well-formed.
    pub fn is_well_formed(&self) -> (r: bool)
        ensures
            r == self.wf(),
    {
        let sized = self.shared.variables.len() == self.config.limits.len();
        let consistent = match &self.shared.error {
            Some(text) => matches!(self.shared.control_state, ControlStatus::Error) && !text.as_str().is_empty(),
            None => !matches!(self.shared.control_state, ControlStatus::Error),
        };
        sized && consistent
    }

    /// Tells which command to transmit next, given the answers received
    /// so far in this cycle, or `None` when nothing more is to be
    /// transmitted and the cycle can be closed.
    pub fn next_command(&self, plan: &Plan, replies: &Vec<Reply>) -> (next: Option<(usize, Command)>)
        ensures
            next == self.next_command_of(plan.stop, plan.targets@, replies@),
    {
        let turn = replies.len();
        if plan.stop || !matches!(self.config.backend, Backend::Zaber) || turn
            >= self.config.limits.len() {
            return None;
        }
        let mut k: usize = 0;
        while k < turn
            invariant
                turn == replies@.len(),
                k <= turn,
                forall|j: int| 0 <= j < k ==> (#[trigger] replies@[j]) is Ok,
            decreases turn - k,
        {
            if replies[k].is_err() {
                return None;
            }
            k += 1;
        }
        let target = if turn < plan.targets.len() {
            plan.targets[turn]
        } else {
            Target::Invalid
        };
        match actuator_command(target, &self.config.limits[turn]) {
            Ok(command) => Some((turn, command)),
            Err(_) => None,
        }
    }

    /// Runs one control cycle on plain values. With `stop` set nothing is
    /// stepped. Otherwise every variable is stepped in order; the first
    /// fault ends the cycle and leaves the snapshot as it was, and without
    /// a fault the working copy is renewed as a whole.
    pub fn cycle(&mut self, stop: bool, targets: &Vec<Target>, replies: &Vec<Reply>, now: i64) -> (outcome:
        CycleOutcome)
        requires
            old(self).wf(),
        ensures
            old(self).cycled(final(self), stop, targets@, replies@, now as int, outcome),
            final(self).wf(),
    {
        if stop {
            return CycleOutcome::Halted;
        }
        let count = self.shared.variables.len();
        let mut next: Vec<Measured> = Vec::new();
        let mut i: usize = 0;
        while i < count
            invariant
                !stop,
                *self == *old(self),
                self.wf(),
                count == self.config.axes(),
                i <= count,
                next@.len() == i,
                forall|k: int|
                    0 <= k < i ==> (#[trigger] self.stepped(targets@, replies@, k)) == Ok::<
                        Measured,
                        DeviceFault,
                    >(next@[k]),
            decreases count - i,
        {
            let target = if i < targets.len() {
                targets[i]
            } else {
                Target::Invalid
            };
            let reply = if i < replies.len() {
                replies[i]
            } else {
                Err(DeviceFault::Timeout)
            };
            let limits = &self.config.limits[i];
            let reach = stride(limits.max_speed, self.config.cycle_time);
            let previous = self.shared.variables[i].value;
            match step(self.config.backend, previous, target, limits, reach, reply) {
                Ok(measured) => {
                    next.push(measured);
                },
                Err(cause) => {
                    return CycleOutcome::Faulted(Fault { variable: i, cause });
                },
            }
            i += 1;
        }
        proof {
            assert(next@ =~= old(self).renewed(targets@, replies@, now as int).variables);
        }
        self.shared.variables = next;
        if now > self.shared.timestamp {
            self.shared.timestamp = now;
        }
        CycleOutcome::Published
    }

    /// Creates the state of a loop that has not run yet: every variable at
    /// rest, status `Stopped`, stamped with the clock's reading, and
    /// published at once.
    pub fn new(
        config: Config,
        out_channel: StateChannel,
        rx_stop: StopChannel,
        target_manual: SetpointCell,
    ) -> (state: ExecState)
        ensures
            state.wf(),
            state.config == config,
            state.out_channel == out_channel,
            state.rx_stop == rx_stop,
            state.target_manual == target_manual,
            exists|now: i64| state.shared@ == #[trigger] Snapshot::initial(config.axes(), now as int),
    {
        let now = now_millis();
        let shared = SharedState::initial(config.limits.len(), now);
        assert(shared@ == Snapshot::initial(config.axes(), now as int));
        let state = ExecState { shared, out_channel, rx_stop, target_manual, config };
        state.publish();
        state
    }

    /// Hands a copy of the working snapshot to the publication cell, which
    /// replaces its content as a whole.
    pub(crate) fn publish(&self) {
        store(&self.out_channel, self.shared.snapshot());
    }

    /// Opens a cycle: looks for a stop signal without waiting and reads the
    /// setpoints. What they are is for other threads to decide; the plan
    /// is the one that `plan_from` makes of them.
    pub fn plan_cycle(&self) -> (plan: Plan)
        ensures
            exists|found: Polled, setpoints: Seq<Target>| #[trigger] self.plans(found, setpoints, plan),
            plan.targets@.len() == self.config.axes(),
            !(plan.stop && plan.severed),
    {
        let found = poll(&self.rx_stop);
        let setpoints = read_setpoints(&self.target_manual);
        let plan = self.plan_from(found, &setpoints);
        assert(self.plans(found, setpoints@, plan));
        plan
    }

    /// The targets of a cycle: for each process variable the setpoint that
    /// was read for it, and an invalid target where none was.
    pub open spec fn targets_of(&self, setpoints: Seq<Target>) -> Seq<Target> {
        Seq::new(self.config.axes(), |i: int| target_at(setpoints, i))
    }

    /// `plan` is the plan for a cycle in which the look into the stop
    /// mailbox found `found` and the setpoint cell held `setpoints`.
    pub open spec fn plans(&self, found: Polled, setpoints: Seq<Target>, plan: Plan) -> bool {
        &&& plan.stop == (found is Signal)
        &&& plan.severed == (found is Disconnected)
        &&& plan.targets@ == self.targets_of(setpoints)
    }

    /// Makes the plan of a cycle from what was found in the stop mailbox
    /// and read from the setpoint cell.
    pub fn plan_from(&self, found: Polled, setpoints: &Vec<Target>) -> (plan: Plan)
        ensures
            self.plans(found, setpoints@, plan),
    {
        let count = self.config.limits.len();
        let mut targets: Vec<Target> = Vec::new();
        let mut i: usize = 0;
        while i < count
            invariant
                count == self.config.axes(),
                i <= count,
                targets@.len() == i,
                forall|k: int| 0 <= k < i ==> #[trigger] targets@[k] == target_at(setpoints@, k),
            decreases count - i,
        {
            let target = if i < setpoints.len() {
                setpoints[i]
            } else {
                Target::Invalid
            };
            targets.push(target);
            i += 1;
        }
        assert(targets@ =~= self.targets_of(setpoints@));
        Plan {
            stop: matches!(found, Polled::Signal),
            severed: matches!(found, Polled::Disconnected),
            targets,
        }
    }

    /// Closes a cycle: runs `cycle` on the plan and the device's answers
    /// under the clock's reading, and publishes the renewed snapshot.
    pub fn complete_cycle(&mut self, plan: &Plan, replies: &Vec<Reply>) -> (outcome: CycleOutcome)
        requires
            old(self).wf(),
        ensures
            exists|now: i64| #[trigger]
                old(self).cycled(final(self), plan.stop, plan.targets@, replies@, now as int, outcome),
            final(self).wf(),
    {
        let now = now_millis();
        let outcome = self.cycle(plan.stop, &plan.targets, replies, now);
        if matches!(outcome, CycleOutcome::Published) {
            self.publish();
        }
        assert(old(self).cycled(self, plan.stop, plan.targets@, replies@, now as int, outcome));
        outcome
    }
}

/// With the manual backend one cycle publishes the operator's values: where
/// every variable has a setpoint that names a value, the cycle succeeds and
/// each variable shows its setpoint as target and as measured value, not
/// busy.
pub proof fn lemma_manual_cycle_shows_setpoints(
    state: &ExecState,
    targets: Seq<Target>,
    replies: Seq<Reply>,
    now: int,
)
    requires
        state.config.backend == Backend::Manual,
        targets.len() == state.config.axes(),
        forall|i: int| 0 <= i < targets.len() ==> targets[i] is At,
    ensures
        state.runs_clean(targets, replies),
        state.renewed(targets, replies, now).variables.len() == state.config.axes(),
        forall|i: int|
            0 <= i < state.config.axes() ==> #[trigger] state.renewed(
                targets,
                replies,
                now,
            ).variables[i] == (Measured {
                target: targets[i]->At_0,
                value: targets[i]->At_0,
                busy: false,
            }),
{
    assert forall|i: int| 0 <= i < state.config.axes() implies (#[trigger] state.stepped(
        targets,
        replies,
        i,
    )) is Ok by {
        assert(targets[i] is At);
    }
}

/// The answers gathered by following `next_command` to its end are all the
/// answers the cycle reads. Where the cycle comes to a variable that has no
/// answer, it is the variable next in turn and its target gave no command,
/// so that the fault is the target's and no answer is missed.
pub proof fn lemma_answers_suffice(state: &ExecState, targets: Seq<Target>, replies: Seq<Reply>, i: int)
    requires
        state.config.backend == Backend::Zaber,
        state.next_command_of(false, targets, replies) is None,
        replies.len() <= i < state.config.axes(),
        forall|k: int| 0 <= k < i ==> (#[trigger] state.stepped(targets, replies, k)) is Ok,
    ensures
        i == replies.len(),
        command_for(target_at(targets, i), state.config.limits@[i]) is Err,
        state.stepped(targets, replies, i) == Err::<Measured, DeviceFault>(DeviceFault::InvalidTarget),
{
    let turn = replies.len() as int;
    if exists|k: int| 0 <= k < turn && (#[trigger] replies[k]) is Err {
        let k = choose|k: int| 0 <= k < turn && (#[trigger] replies[k]) is Err;
        assert(state.stepped(targets, replies, k) is Ok);
    } else {
        assert(state.stepped(targets, replies, turn) is Err);
    }
}

} // verus!
