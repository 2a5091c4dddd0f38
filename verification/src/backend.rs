//! The three process-variable backends, one step at a time.
//!
//! The simulated ramp and the manual pass-through are computed here in full.
//! For the real actuator the library computes the command to transmit and,
//! once the device has answered, the measured state that the answer gives.

use vstd::prelude::*;
use crate::config::Backend;
use crate::config::Limits;
use crate::quantity::advance;
use crate::quantity::approach;
use crate::quantity::bound;
use crate::quantity::bounded;
use crate::quantity::distance;
use crate::quantity::Target;
use crate::state::Measured;

verus! {

/// Why a backend could not complete a step.
#[derive(Clone, Copy, Debug, PartialEq, Eq, Structural)]
pub enum DeviceFault {
    /// The target names no value, or no value within the limits.
    InvalidTarget,
    /// The link to the device is gone.
    ConnectionLost,
    /// The device itself reported an error.
    DeviceError,
    /// The device did not answer a command in time.
    Timeout,
}

impl DeviceFault {
    /// The text shown to operators for this cause.
    pub open spec fn text(self) -> Seq<char> {
        match self {
            DeviceFault::InvalidTarget => "invalid target"@,
            DeviceFault::ConnectionLost => "connection lost"@,
            DeviceFault::DeviceError => "device error"@,
            DeviceFault::Timeout => "command timeout"@,
        }
    }

    /// No cause has an empty text.
    pub proof fn lemma_text_not_empty(self)
        ensures
            self.text().len() > 0,
    {
        reveal_strlit("invalid target");
        reveal_strlit("connection lost");
        reveal_strlit("device error");
        reveal_strlit("command timeout");
    }

    /// The text shown to operators for this cause; never empty.
    pub fn message(&self) -> (s: String)
        ensures
            s@ == self.text(),
            s@.len() > 0,
    {
        proof {
            self.lemma_text_not_empty();
        }
        match self {
            DeviceFault::InvalidTarget => "invalid target".to_string(),
            DeviceFault::ConnectionLost => "connection lost".to_string(),
            DeviceFault::DeviceError => "device error".to_string(),
            DeviceFault::Timeout => "command timeout".to_string(),
        }
    }
}

/// What a real actuator reports after a command.
#[derive(Clone, Copy, Debug, PartialEq, Eq, Structural)]
pub struct Feedback {
    /// The measured position, in micro-units.
    pub value: i64,
    /// Whether the device is still moving.
    pub busy: bool,
}

/// The answer to one command: the device's feedback, or the fault that the
/// link or the device raised.
pub type Reply = Result<Feedback, DeviceFault>;

/// The command transmitted to a real actuator.
#[derive(Clone, Copy, Debug, PartialEq, Eq, Structural)]
pub struct Command {
    /// The position to move to; always within the limits.
    pub position: i64,
    /// Whether the requested target lay outside the limits and was moved
    /// to the nearest limit.
    pub limited: bool,
}

/// The target names a value within the limits.
pub open spec fn admissible(target: Target, limits: Limits) -> bool {
    target matches Target::At(t) && limits.admits(t as int)
}

/// Where the simulated value stands one step after `previous`: moved
/// towards `target` by at most `stride` and kept within the limits.
pub open spec fn ramp_value(previous: i64, target: i64, limits: Limits, stride: u64) -> i64 {
    bounded(
        approach(previous as int, target as int, stride as int),
        limits.min as int,
        limits.max as int,
    ) as i64
}

/// One step of the simulated ramp. The variable is busy until its value is
/// the target. A target that is not admissible is refused.
pub open spec fn ramp_outcome(previous: i64, target: Target, limits: Limits, stride: u64) -> Result<
    Measured,
    DeviceFault,
> {
    match target {
        Target::At(t) if limits.admits(t as int) => {
            let value = ramp_value(previous, t, limits, stride);
            Ok(Measured { target: t, value, busy: value != t })
        },
        _ => Err(DeviceFault::InvalidTarget),
    }
}

/// Where the simulated value stands `cycles` steps after `start` under a
/// target that does not change.
pub open spec fn ramp_after(start: i64, target: i64, limits: Limits, stride: u64, cycles: nat) -> i64
    decreases cycles,
{
    if cycles == 0 {
        start
    } else {
        ramp_value(ramp_after(start, target, limits, stride, (cycles - 1) as nat), target, limits, stride)
    }
}

/// `via` lies on the way from `from` to `to`.
pub open spec fn on_the_way(from: int, via: int, to: int) -> bool {
    from <= via <= to || from >= via >= to
}

/// One step of the manual pass-through: the operator's value is both target
/// and measured value, and the variable is never busy.
pub open spec fn manual_outcome(target: Target) -> Result<Measured, DeviceFault> {
    match target {
        Target::At(v) => Ok(Measured { target: v, value: v, busy: false }),
        Target::Invalid => Err(DeviceFault::InvalidTarget),
    }
}

/// The command for a real actuator: the target moved to the nearest limit.
/// There is no command for a target that names no value, nor under limits
/// that admit no value at all.
pub open spec fn command_for(target: Target, limits: Limits) -> Result<Command, DeviceFault> {
    match target {
        Target::At(t) if limits.min <= limits.max => {
            let position = bounded(t as int, limits.min as int, limits.max as int);
            Ok(Command { position: position as i64, limited: position != t })
        },
        _ => Err(DeviceFault::InvalidTarget),
    }
}

/// What a real actuator's answer to `command` gives: the commanded position
/// as target beside the device's own feedback, or the fault as it came.
pub open spec fn report_for(command: Command, reply: Reply) -> Result<Measured, DeviceFault> {
    match reply {
        Ok(feedback) => Ok(
            Measured { target: command.position, value: feedback.value, busy: feedback.busy },
        ),
        Err(fault) => Err(fault),
    }
}

/// One step of any backend. `previous` is the variable's measured value
/// before the step; `reply` is read by the real actuator alone.
pub open spec fn step_outcome(
    backend: Backend,
    previous: i64,
    target: Target,
    limits: Limits,
    stride: u64,
    reply: Reply,
) -> Result<Measured, DeviceFault> {
    match backend {
        Backend::Ramp => ramp_outcome(previous, target, limits, stride),
        Backend::Manual => manual_outcome(target),
        Backend::Zaber => match command_for(target, limits) {
            Ok(command) => report_for(command, reply),
            Err(fault) => Err(fault),
        },
    }
}

/// One step of the ramp under an admissible target never moves the value
/// away from the target or past it, and unless it arrives it covers a full
/// stride.
pub proof fn lemma_ramp_step_closes_in(previous: i64, target: i64, limits: Limits, stride: u64)
    requires
        limits.admits(target as int),
    ensures
        on_the_way(previous as int, ramp_value(previous, target, limits, stride) as int, target as int),
        ramp_value(previous, target, limits, stride) == target || distance(
            ramp_value(previous, target, limits, stride) as int,
            target as int,
        ) <= distance(previous as int, target as int) - stride,
        previous == target ==> ramp_value(previous, target, limits, stride) == target,
{
}

/// The simulated ramp converges. Under an admissible target that does not
/// change, the value moves towards the target one cycle after the other
/// without ever turning back or overshooting; it is the target after any
/// number of cycles whose strides cover the distance from the start; and
/// each step reports the variable busy exactly while the value is not yet
/// the target.
pub proof fn lemma_ramp_converges(start: i64, target: i64, limits: Limits, stride: u64, cycles: nat)
    requires
        limits.admits(target as int),
    ensures
        forall|k: nat|
            k < cycles ==> on_the_way(
                #[trigger] ramp_after(start, target, limits, stride, k) as int,
                ramp_after(start, target, limits, stride, k + 1) as int,
                target as int,
            ),
        forall|k: nat|
            k < cycles ==> #[trigger] ramp_outcome(
                ramp_after(start, target, limits, stride, k),
                Target::At(target),
                limits,
                stride,
            ) == Ok::<Measured, DeviceFault>(
                Measured {
                    target,
                    value: ramp_after(start, target, limits, stride, k + 1),
                    busy: ramp_after(start, target, limits, stride, k + 1) != target,
                },
            ),
        distance(start as int, target as int) <= cycles * stride ==> ramp_after(
            start,
            target,
            limits,
            stride,
            cycles,
        ) == target,
        on_the_way(start as int, ramp_after(start, target, limits, stride, cycles) as int, target as int),
        ramp_after(start, target, limits, stride, cycles) == target || distance(
            ramp_after(start, target, limits, stride, cycles) as int,
            target as int,
        ) <= distance(start as int, target as int) - cycles * stride,
    decreases cycles,
{
    if cycles > 0 {
        let before = (cycles - 1) as nat;
        lemma_ramp_converges(start, target, limits, stride, before);
        let at = ramp_after(start, target, limits, stride, before);
        lemma_ramp_step_closes_in(at, target, limits, stride);
        assert(cycles * stride == before * stride + stride) by (nonlinear_arith)
            requires
                cycles == before + 1,
        ;
        assert(ramp_after(start, target, limits, stride, before + 1) == ramp_value(
            at,
            target,
            limits,
            stride,
        ));
    } else {
        assert(cycles * stride == 0) by (nonlinear_arith)
            requires
                cycles == 0,
        ;
    }
}

/// Nothing outside the limits is ever reported or commanded. A step of the
/// simulated ramp that succeeds reports a target and a value within the
/// limits; a command for the real actuator lies within the limits, and so
/// does the target that a step of the real actuator reports.
pub proof fn lemma_limits_are_enforced(
    previous: i64,
    target: Target,
    limits: Limits,
    stride: u64,
    reply: Reply,
)
    ensures
        ramp_outcome(previous, target, limits, stride) matches Ok(measured) ==> limits.admits(
            measured.target as int,
        ) && limits.admits(measured.value as int),
        ramp_outcome(previous, target, limits, stride) is Ok <==> admissible(target, limits),
        command_for(target, limits) matches Ok(command) ==> limits.admits(command.position as int) && (
        command.limited <==> !admissible(target, limits)),
        step_outcome(Backend::Zaber, previous, target, limits, stride, reply) matches Ok(measured)
            ==> limits.admits(measured.target as int),
{
}

/// The manual pass-through reports the operator's value as it is: for every
/// value, whatever the limits and whatever was measured before, the step
/// succeeds with that value as target and as measured value, and not busy.
pub proof fn lemma_manual_passes_through(
    value: i64,
    previous: i64,
    limits: Limits,
    stride: u64,
    reply: Reply,
)
    ensures
        step_outcome(Backend::Manual, previous, Target::At(value), limits, stride, reply) == Ok::<
            Measured,
            DeviceFault,
        >(Measured { target: value, value, busy: false }),
{
}

/// Steps the simulated ramp once.
pub fn ramp_step(previous: i64, target: Target, limits: &Limits, stride: u64) -> (r: Result<
    Measured,
    DeviceFault,
>)
    ensures
        r == ramp_outcome(previous, target, *limits, stride),
{
    match target {
        Target::At(t) => {
            if limits.contains(t) {
                let value = bound(advance(previous, t, stride), limits.min, limits.max);
                Ok(Measured { target: t, value, busy: value != t })
            } else {
                Err(DeviceFault::InvalidTarget)
            }
        },
        Target::Invalid => Err(DeviceFault::InvalidTarget),
    }
}

/// Steps the manual pass-through once.
pub fn manual_step(target: Target) -> (r: Result<Measured, DeviceFault>)
    ensures
        r == manual_outcome(target),
{
    match target {
        Target::At(v) => Ok(Measured { target: v, value: v, busy: false }),
        Target::Invalid => Err(DeviceFault::InvalidTarget),
    }
}

/// Computes the command to transmit to a real actuator.
pub fn actuator_command(target: Target, limits: &Limits) -> (r: Result<Command, DeviceFault>)
    ensures
        r == command_for(target, *limits),
{
    match target {
        Target::At(t) => {
            if limits.min <= limits.max {
                let position = bound(t, limits.min, limits.max);
                Ok(Command { position, limited: position != t })
            } else {
                Err(DeviceFault::InvalidTarget)
            }
        },
        Target::Invalid => Err(DeviceFault::InvalidTarget),
    }
}

/// Turns a real actuator's answer into the variable's measured state.
pub fn actuator_report(command: Command, reply: Reply) -> (r: Result<Measured, DeviceFault>)
    ensures
        r == report_for(command, reply),
{
    match reply {
        Ok(feedback) => Ok(
            Measured { target: command.position, value: feedback.value, busy: feedback.busy },
        ),
        Err(fault) => Err(fault),
    }
}

/// Steps one process variable with the configured backend.
pub fn step(
    backend: Backend,
    previous: i64,
    target: Target,
    limits: &Limits,
    stride: u64,
    reply: Reply,
) -> (r: Result<Measured, DeviceFault>)
    ensures
        r == step_outcome(backend, previous, target, *limits, stride, reply),
{
    match backend {
        Backend::Ramp => ramp_step(previous, target, limits, stride),
        Backend::Manual => manual_step(target),
        Backend::Zaber => match actuator_command(target, limits) {
            Ok(command) => actuator_report(command, reply),
            Err(fault) => Err(fault),
        },
    }
}

} // verus!
