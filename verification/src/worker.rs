//! The decisions of the thread that owns the device: what it does with each
//! thing that happens to it.
//!
//! The thread itself (channels, timer, the transfers) belongs to the caller,
//! which performs each action and reports what came of it.

use vstd::prelude::*;
use crate::error::DriverError;

verus! {

/// Something that happened to the device thread.
#[derive(Clone, Copy, Debug, PartialEq, Eq, Structural)]
pub enum WorkerEvent {
    /// A request arrived; `shutdown` when it asks the thread to stop.
    Request { shutdown: bool },
    /// Every handle was dropped: no request can arrive any more.
    HandlesDropped,
    /// The poll timer fired.
    Tick,
    /// A status poll finished; `ok` when it read the device.
    Polled { ok: bool },
}

/// What the device thread does next.
#[derive(Clone, Copy, Debug, PartialEq, Eq, Structural)]
pub enum WorkerAction {
    /// Perform the request and answer it if an answer was asked for.
    Serve,
    /// Read a status snapshot from the device.
    Poll,
    /// Offer the snapshot just read to the front end, in place of one it
    /// has not read yet.
    Publish,
    /// Nothing to do: wait for the next event.
    Wait,
    /// Leave the loop, so that the front end learns the device is gone and
    /// can open it again.
    Stop,
}

/// The action that follows `event`, for a thread that polls the device when
/// `polling` holds.
pub open spec fn spec_worker_step(polling: bool, event: WorkerEvent) -> WorkerAction {
    match event {
        WorkerEvent::Request { shutdown } => if shutdown {
            WorkerAction::Stop
        } else {
            WorkerAction::Serve
        },
        WorkerEvent::HandlesDropped => WorkerAction::Stop,
        WorkerEvent::Tick => if polling {
            WorkerAction::Poll
        } else {
            WorkerAction::Wait
        },
        WorkerEvent::Polled { ok } => if ok {
            WorkerAction::Publish
        } else {
            WorkerAction::Stop
        },
    }
}

/// Decide what the device thread does with `event`. It stops on a shutdown
/// request, when no handle is left, and when a poll fails; it never polls
/// unless it was started to.
pub fn worker_step(polling: bool, event: WorkerEvent) -> (a: WorkerAction)
    ensures
        a == spec_worker_step(polling, event),
        a == WorkerAction::Stop <==> (event == WorkerEvent::Request { shutdown: true }
            || event == WorkerEvent::HandlesDropped || event == WorkerEvent::Polled { ok: false }),
        a == WorkerAction::Poll ==> polling,
{
    match event {
        WorkerEvent::Request { shutdown } => {
            if shutdown {
                WorkerAction::Stop
            } else {
                WorkerAction::Serve
            }
        },
        WorkerEvent::HandlesDropped => WorkerAction::Stop,
        WorkerEvent::Tick => {
            if polling {
                WorkerAction::Poll
            } else {
                WorkerAction::Wait
            }
        },
        WorkerEvent::Polled { ok } => {
            if ok {
                WorkerAction::Publish
            } else {
                WorkerAction::Stop
            }
        },
    }
}

/// How long applying the saved state on connect keeps retrying a device
/// that is not ready yet, in milliseconds.
pub const RETRY_BUDGET_MS: u64 = 10000;

/// The pause before retry `attempt` (from 0): 250 ms, doubling up to 2 s.
pub open spec fn spec_backoff_ms(attempt: u32) -> u64 {
    if attempt == 0 {
        250
    } else if attempt == 1 {
        500
    } else if attempt == 2 {
        1000
    } else {
        2000
    }
}

/// The pause before the next try, after `attempt` failed tries that waited
/// `waited_ms` in all; none once the budget is spent.
pub open spec fn spec_retry_delay(attempt: u32, waited_ms: u64) -> Option<u64> {
    if waited_ms >= RETRY_BUDGET_MS {
        None
    } else if spec_backoff_ms(attempt) <= RETRY_BUDGET_MS - waited_ms {
        Some(spec_backoff_ms(attempt))
    } else {
        Some((RETRY_BUDGET_MS - waited_ms) as u64)
    }
}

/// The pause before retrying a device that was not ready: backing off, and
/// never waiting more than the budget in all.
pub fn retry_delay(attempt: u32, waited_ms: u64) -> (r: Option<u64>)
    ensures
        r == spec_retry_delay(attempt, waited_ms),
        r matches Some(d) ==> 0 < d && waited_ms + d <= RETRY_BUDGET_MS,
        r is None <==> waited_ms >= RETRY_BUDGET_MS,
{
    if waited_ms >= RETRY_BUDGET_MS {
        return None;
    }
    let step: u64 = if attempt == 0 {
        250
    } else if attempt == 1 {
        500
    } else if attempt == 2 {
        1000
    } else {
        2000
    };
    let left = RETRY_BUDGET_MS - waited_ms;
    if step <= left {
        Some(step)
    } else {
        Some(left)
    }
}

/// Whether a failure means the device is not ready yet (not there, gone, or
/// not openable), so that trying again later may succeed.
pub open spec fn spec_not_ready(e: DriverError) -> bool {
    e is KmodNotLoaded || e is Disconnected || e is Io
}

/// Whether a failure means the device is not ready yet, so that a later
/// try may succeed.
pub fn not_ready(e: &DriverError) -> (b: bool)
    ensures
        b == spec_not_ready(*e),
{
    match e {
        DriverError::KmodNotLoaded | DriverError::Disconnected | DriverError::Io(_) => true,
        _ => false,
    }
}

} // verus!
