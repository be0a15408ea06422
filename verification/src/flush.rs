use vstd::prelude::*;

use crate::models::UsageEvent;

verus! {

/// What woke the background flush task up.
#[derive(Debug, Clone, Copy, PartialEq, Eq, Structural)]
pub enum FlushTrigger {
    /// The flush interval has passed.
    Tick,
    /// The shutdown signal changed; it now holds this value.
    ShutdownChanged(bool),
}

/// What the background flush task does next.
#[derive(Debug, Clone, Copy, PartialEq, Eq, Structural)]
pub enum FlushAction {
    /// Flush the pending events, then wait for the next trigger.
    Flush,
    /// Flush the pending events one last time, then stop.
    FinalFlush,
    /// Wait for the next trigger.
    Wait,
}

/// The action the background flush task takes on `trigger`.
pub open spec fn action_on(trigger: FlushTrigger) -> FlushAction {
    match trigger {
        FlushTrigger::Tick => FlushAction::Flush,
        FlushTrigger::ShutdownChanged(true) => FlushAction::FinalFlush,
        FlushTrigger::ShutdownChanged(false) => FlushAction::Wait,
    }
}

/// Decides what the background flush task does on `trigger`: every tick flushes, and a
/// shutdown signal set to `true` makes one final flush before the task stops.
pub fn flush_action(trigger: FlushTrigger) -> (action: FlushAction)
    ensures
        action == action_on(trigger),
{
    match trigger {
        FlushTrigger::Tick => FlushAction::Flush,
        FlushTrigger::ShutdownChanged(stop) => if stop {
            FlushAction::FinalFlush
        } else {
            FlushAction::Wait
        },
    }
}

/// Takes every pending event out of the queue for one flush. An empty queue gives no batch
/// and is left as it is; otherwise the batch holds every event, in the order in which they
/// were queued, and the queue is left empty.
pub fn take_pending(queue: &mut Vec<UsageEvent>) -> (batch: Option<Vec<UsageEvent>>)
    ensures
        old(queue)@.len() == 0 ==> batch is None && final(queue)@ == old(queue)@,
        old(queue)@.len() > 0 ==> (batch matches Some(b) && b@ == old(queue)@ && final(queue)@.len() == 0),
{
    if queue.len() == 0 {
        return None;
    }
    let mut taken: Vec<UsageEvent> = Vec::new();
    std::mem::swap(queue, &mut taken);
    Some(taken)
}

} // verus!
