//! The heartbeat actor's decision logic: whether to spawn it at all, and
//! whether one more keep-alive cycle is due. The surrounding thread does
//! the sleeping and the device write.

use vstd::prelude::*;

verus! {

/// What the heartbeat loop does next.
#[derive(Clone, Copy, PartialEq, Eq, Structural, Debug)]
pub enum HeartbeatDecision {
    /// Sleep the configured interval, then write the payload once.
    SleepThenSend,
    /// Exit the loop: the session is stopping or the device rejected a
    /// write.
    Stop,
}

/// Whether the heartbeat actor runs at all: a zero interval disables it and
/// it is never spawned.
pub fn heartbeat_enabled(interval_secs: u64) -> (r: bool)
    ensures
        r == (interval_secs > 0),
{
    interval_secs > 0
}

/// One heartbeat cycle decision: another keep-alive goes out only while the
/// stop flag was observed true and the previous write succeeded. Once the
/// flag is false, no further write happens.
pub fn heartbeat_step(running: bool, last_send_ok: bool) -> (r: HeartbeatDecision)
    ensures
        (r is SleepThenSend) == (running && last_send_ok),
{
    if running && last_send_ok {
        HeartbeatDecision::SleepThenSend
    } else {
        HeartbeatDecision::Stop
    }
}

} // verus!
