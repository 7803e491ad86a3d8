//! The bounded activity log: an ordered, newest-first record of events.
//! Capacity is fixed; insertion evicts the oldest entry when full. Entry ids
//! are never reused and strictly increase across the log's whole lifetime,
//! including evicted entries.

use vstd::prelude::*;
use crate::wifi::LinkProbeError;

verus! {

/// Capacity of the activity log.
pub const MAX_LOGS: usize = 30;

/// The most recent unexpected failure, also the explanation of a declined
/// start. Every message the service records comes from this fixed set.
#[derive(Clone, Copy, Debug, PartialEq, Eq, Structural)]
pub enum ErrorReason {
    /// "Wi-Fi state unknown. Start blocked."
    WifiUnknownStartBlocked,
    /// "Wi-Fi is off. Turn it on to start."
    WifiOffStartBlocked,
    /// "Internet unavailable. Start blocked."
    InternetUnavailableStartBlocked,
    /// "Kick request failed."
    KickRequestFailed,
    /// "Manual kick failed."
    ManualKickFailed,
    /// "Failed transition to STOPPING"
    StoppingTransitionFailed,
    /// "Failed transition to STOPPED"
    StoppedTransitionFailed,
}

/// A human-readable event recorded in the activity log.
#[derive(Clone, Copy, Debug, PartialEq, Eq, Structural)]
pub enum LogMessage {
    /// "Service initialized in STOPPED state."
    ServiceInitialized,
    /// "Start requested."
    StartRequested,
    /// "Wi-Fi check failed: {probe error}"
    WifiCheckFailed(LinkProbeError),
    /// "Start blocked because Wi-Fi is disconnected."
    StartBlockedWifiDisconnected,
    /// "Start blocked because internet is offline."
    StartBlockedInternetOffline,
    /// "Service transitioned to RUNNING."
    TransitionedToRunning,
    /// "Kick sent successfully."
    KickSent,
    /// "Manual kick sent successfully."
    ManualKickSent,
    /// "Stop requested by user."
    StopRequested,
    /// "Service stopped by user."
    ServiceStoppedByUser,
    /// "Wi-Fi disconnected while running."
    WifiLostWhileRunning,
    /// "Internet connectivity lost while running."
    InternetLostWhileRunning,
    /// "Service moved to STOPPED."
    MovedToStopped,
    /// "Unexpected failure: {reason}"
    UnexpectedFailure(ErrorReason),
    /// "Service moved to STOPPED after ERROR."
    StoppedAfterError,
    /// "Kick interval set to {seconds}s."
    IntervalSet(u64),
}

/// One entry of the activity log, immutable once created.
#[derive(Clone, Copy, Debug, PartialEq, Eq, Structural)]
pub struct LogEvent {
    pub id: u64,
    pub timestamp_ms: u64,
    pub message: LogMessage,
}

/// Insertion at the front, evicting the oldest entry when the log is full.
pub open spec fn bounded_push(logs: Seq<LogEvent>, entry: LogEvent) -> Seq<LogEvent> {
    let grown = seq![entry] + logs;
    if grown.len() <= MAX_LOGS {
        grown
    } else {
        grown.take(MAX_LOGS as int)
    }
}

/// Well-formedness of a log paired with the next id to hand out: bounded
/// length, every id at least 1 and below `next_id`, ids strictly decreasing
/// from newest to oldest.
pub open spec fn log_inv(logs: Seq<LogEvent>, next_id: u64) -> bool {
    &&& logs.len() <= MAX_LOGS
    &&& next_id >= 1
    &&& forall|i: int| 0 <= i < logs.len() ==> 1 <= (#[trigger] logs[i]).id < next_id
    &&& forall|i: int| 0 < i < logs.len() ==> (#[trigger] logs[i]).id < logs[i - 1].id
}

/// `bounded_push` of a fresh entry keeps the log well formed.
pub proof fn lemma_bounded_push_inv(logs: Seq<LogEvent>, next_id: u64, entry: LogEvent)
    requires
        log_inv(logs, next_id),
        entry.id == next_id,
        next_id < u64::MAX,
    ensures
        log_inv(bounded_push(logs, entry), (next_id + 1) as u64),
{
    let pushed = bounded_push(logs, entry);
    assert forall|i: int| 0 < i < pushed.len() implies (#[trigger] pushed[i]).id < pushed[i
        - 1].id by {
        assert(pushed[i] == logs[i - 1]);
    }
}

/// The log and next id after recording a sequence of events in order; each
/// event is a (timestamp, message) pair and is assigned the next id.
pub open spec fn apply_log_events(
    logs: Seq<LogEvent>,
    next_id: u64,
    events: Seq<(u64, LogMessage)>,
) -> (Seq<LogEvent>, u64)
    decreases events.len(),
{
    if events.len() == 0 {
        (logs, next_id)
    } else {
        let entry = LogEvent { id: next_id, timestamp_ms: events[0].0, message: events[0].1 };
        apply_log_events(bounded_push(logs, entry), (next_id + 1) as u64, events.drop_first())
    }
}

/// Law: after recording any sequence of events, the log holds exactly the
/// most recent entries (all of them if they fit, the newest `MAX_LOGS`
/// otherwise), newest first, with ids that continue strictly increasing
/// across the whole history, evicted entries included; older retained
/// entries follow unchanged.
#[verifier::rlimit(60)]
pub proof fn lemma_log_retention(
    logs: Seq<LogEvent>,
    next_id: u64,
    events: Seq<(u64, LogMessage)>,
)
    requires
        log_inv(logs, next_id),
        next_id + events.len() <= u64::MAX,
    ensures
        ({
            let (out, out_next) = apply_log_events(logs, next_id, events);
            &&& out_next == next_id + events.len()
            &&& log_inv(out, out_next)
            &&& out.len() == if logs.len() + events.len() <= MAX_LOGS {
                logs.len() + events.len() as int
            } else {
                MAX_LOGS as int
            }
            &&& forall|k: int|
                0 <= k < out.len() && k < events.len() ==> #[trigger] out[k] == (LogEvent {
                    id: (next_id + events.len() - 1 - k) as u64,
                    timestamp_ms: events[events.len() - 1 - k].0,
                    message: events[events.len() - 1 - k].1,
                })
            &&& forall|k: int|
                events.len() <= k < out.len() ==> #[trigger] out[k] == logs[k - events.len()]
        }),
    decreases events.len(),
{
    if events.len() == 0 {
    } else {
        let entry = LogEvent { id: next_id, timestamp_ms: events[0].0, message: events[0].1 };
        let pushed = bounded_push(logs, entry);
        let rest = events.drop_first();
        lemma_bounded_push_inv(logs, next_id, entry);
        lemma_log_retention(pushed, (next_id + 1) as u64, rest);
        let (out, out_next) = apply_log_events(logs, next_id, events);
        assert forall|k: int| 0 <= k < out.len() && k < events.len() implies #[trigger] out[k]
            == (LogEvent {
            id: (next_id + events.len() - 1 - k) as u64,
            timestamp_ms: events[events.len() - 1 - k].0,
            message: events[events.len() - 1 - k].1,
        }) by {
            if k < rest.len() {
                assert(rest[rest.len() - 1 - k] == events[events.len() - 1 - k]);
            } else {
                assert(k == events.len() - 1);
                assert(out[k] == pushed[k - rest.len()]);
                assert(pushed[0] == entry);
            }
        }
        assert forall|k: int| events.len() <= k < out.len() implies #[trigger] out[k] == logs[k
            - events.len()] by {
            assert(out[k] == pushed[k - rest.len()]);
            assert(pushed[k - rest.len()] == logs[k - events.len()]);
        }
    }
}

} // verus!
