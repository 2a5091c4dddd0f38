//! The order of publications. The loop is the only writer, so what readers
//! can ever see is a chain of snapshots, each made from the one before by
//! one event or one cycle.

use vstd::prelude::*;
use crate::backend::Reply;
use crate::executor::CycleOutcome;
use crate::executor::ExecState;
use crate::quantity::Target;
use crate::state::stamp;
use crate::state::Measured;
use crate::state::Snapshot;
use crate::status::ControlStatus;
use crate::supervisor::after;
use crate::supervisor::Event;

verus! {

/// `later` is what an event makes of `earlier`.
pub open spec fn by_event(earlier: Snapshot, later: Snapshot, event: Event, now: int) -> bool {
    later == after(earlier, event, now)
}

/// `later` is what a cycle makes of `earlier`: new variables under a
/// timestamp that did not run backwards, status and error text as before.
pub open spec fn by_cycle(earlier: Snapshot, later: Snapshot, variables: Seq<Measured>, now: int) -> bool {
    later == (Snapshot { variables, timestamp: stamp(earlier.timestamp, now), ..earlier })
}

/// `later` is what one step of the writer makes of `earlier`.
pub open spec fn follows(earlier: Snapshot, later: Snapshot) -> bool {
    ||| exists|event: Event, now: int| by_event(earlier, later, event, now)
    ||| exists|variables: Seq<Measured>, now: int| by_cycle(earlier, later, variables, now)
}

/// Each snapshot of `chain` follows the one before it.
pub open spec fn is_chain(chain: Seq<Snapshot>) -> bool {
    forall|i: int| 0 <= i < chain.len() - 1 ==> follows(#[trigger] chain[i], chain[i + 1])
}

/// One step of the writer never moves the timestamp backwards.
pub proof fn lemma_step_keeps_order(earlier: Snapshot, later: Snapshot)
    requires
        follows(earlier, later),
    ensures
        earlier.timestamp <= later.timestamp,
{
}

/// Publications are ordered: along any chain of snapshots, however the
/// clock behaved, a later snapshot never carries an older timestamp than an
/// earlier one. A reader that sees the snapshots in the order of their
/// publication never sees the timestamp decrease.
pub proof fn lemma_timestamps_never_decrease(chain: Seq<Snapshot>, i: int, j: int)
    requires
        is_chain(chain),
        0 <= i <= j < chain.len(),
    ensures
        chain[i].timestamp <= chain[j].timestamp,
    decreases j - i,
{
    if i < j {
        lemma_timestamps_never_decrease(chain, i, j - 1);
        assert(follows(chain[j - 1], chain[j - 1 + 1]));
        lemma_step_keeps_order(chain[j - 1], chain[j]);
    }
}

/// What `react_at` and `react` do to the working copy is one step of the
/// writer.
pub proof fn lemma_event_is_a_step(earlier: Snapshot, event: Event, now: int)
    ensures
        follows(earlier, after(earlier, event, now)),
{
    assert(by_event(earlier, after(earlier, event, now), event, now));
}

/// What `cycle` and `complete_cycle` do to the working copy is one step of
/// the writer, whatever the outcome. A cycle touches neither status nor
/// error text, and one that publishes carries a timestamp no older than the
/// clock's reading.
pub proof fn lemma_cycle_is_a_step(
    before: &ExecState,
    after_it: &ExecState,
    stop: bool,
    targets: Seq<Target>,
    replies: Seq<Reply>,
    now: int,
    outcome: CycleOutcome,
)
    requires
        before.cycled(after_it, stop, targets, replies, now, outcome),
    ensures
        follows(before.shared@, after_it.shared@),
        after_it.shared@.control_state == before.shared@.control_state,
        after_it.shared@.error == before.shared@.error,
        outcome is Published ==> after_it.shared@.timestamp >= now,
{
    if outcome is Published {
        assert(by_cycle(
            before.shared@,
            after_it.shared@,
            before.renewed(targets, replies, now).variables,
            now,
        ));
    } else {
        let idle = if before.shared@.control_state == ControlStatus::Stopped {
            Event::StopSignal
        } else {
            Event::StartSignal
        };
        assert(by_event(before.shared@, after_it.shared@, idle, now));
    }
}

} // verus!
