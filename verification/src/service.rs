//! The service itself: the shared state that every command and the worker
//! mutate, and the decision logic of each operation. Network probes, the
//! kick request, sleeping and notifications happen outside; the caller runs
//! them between steps and feeds their outcomes back in as plain values,
//! serializing all access to one `Service` value. Each step returns what to
//! do next, so the caller decides nothing itself.

use vstd::prelude::*;
use crate::machine::{ServiceMachineState, valid_transition};
use crate::activity::{LogEvent, LogMessage, ErrorReason, MAX_LOGS, bounded_push, log_inv};
use crate::wifi::LinkProbeError;

verus! {

/// Floor for the kick interval, seconds.
pub const MIN_INTERVAL_SECONDS: u64 = 60;

/// Default kick interval, seconds.
pub const DEFAULT_INTERVAL_SECONDS: u64 = 120;

/// Result of the last local-link probe.
#[derive(Clone, Copy, Debug, PartialEq, Eq, Structural)]
pub enum WifiStatus {
    Connected,
    Disconnected,
    Unknown,
}

/// Result of the last internet reachability probe.
#[derive(Clone, Copy, Debug, PartialEq, Eq, Structural)]
pub enum InternetStatus {
    Online,
    Offline,
    Unknown,
}

/// What a local-link probe reported: a verdict, or a failure to probe.
#[derive(Clone, Copy, Debug, PartialEq, Eq, Structural)]
pub enum LinkProbe {
    Connected,
    Disconnected,
    Failed(LinkProbeError),
}

/// A user notification the caller should show, best effort.
#[derive(Clone, Copy, Debug, PartialEq, Eq, Structural)]
pub enum Notice {
    /// "Wi-Fi is off. Turn it on to start."
    WifiOffTurnOn,
    /// "Wi-Fi disconnected. Service stopped."
    WifiDisconnectedStopped,
    /// "Internet lost. Service stopped."
    InternetLostStopped,
    /// "Unexpected error. Service stopped."
    UnexpectedErrorStopped,
}

/// A transition the table forbids, carrying the offending pair.
#[derive(Clone, Copy, Debug, PartialEq, Eq, Structural)]
pub struct InvalidTransition {
    pub from: ServiceMachineState,
    pub to: ServiceMachineState,
}

/// What to do after asking to start.
#[derive(Clone, Copy, Debug, PartialEq, Eq, Structural)]
pub enum StartBegin {
    /// Not stopped: return the current snapshot, change nothing.
    AlreadyActive,
    /// Run the link check and report it back.
    CheckLink,
}

/// What to do after the start sequence saw the link probe.
#[derive(Clone, Copy, Debug, PartialEq, Eq, Structural)]
pub enum StartAfterLink {
    /// Start declined; notify and return the snapshot.
    Declined,
    /// Run the reachability check and report it back.
    CheckInternet,
}

/// What to do after the start sequence saw the reachability probe.
#[derive(Clone, Copy, Debug, PartialEq, Eq, Structural)]
pub enum StartAfterNet {
    /// Start declined (internet offline); return the snapshot.
    DeclinedOffline,
    /// A race moved the machine; the start aborts with this failure.
    TransitionFailed(InvalidTransition),
    /// The service is Running: spawn the worker loop.
    SpawnWorker,
}

/// What to do after asking to stop.
#[derive(Clone, Copy, Debug, PartialEq, Eq, Structural)]
pub enum StopBegin {
    /// Not running: return the current snapshot, change nothing.
    NotRunning,
    /// Cancel the worker task, then finish the stop.
    CancelWorker,
}

/// What to do after asking for a manual kick.
#[derive(Clone, Copy, Debug, PartialEq, Eq, Structural)]
pub enum KickNowBegin {
    /// Not running: return the current snapshot, change nothing.
    NotRunning,
    /// Send the kick and report back whether it succeeded.
    SendKick,
}

/// What the worker loop should do after a step.
#[derive(Clone, Copy, Debug, PartialEq, Eq, Structural)]
pub enum WorkerStep {
    /// Go on with the iteration (after the kick: sleep, then loop).
    Continue,
    /// The running period is over; the loop exits.
    Exit,
}

/// A point-in-time, internally consistent projection of the whole service
/// state, returned to every caller.
#[derive(Clone, Debug)]
pub struct ServiceSnapshot {
    pub current_state: ServiceMachineState,
    pub wifi_status: WifiStatus,
    pub internet_status: InternetStatus,
    pub last_kick_time_ms: Option<u64>,
    pub interval_seconds: u64,
    pub logs: Vec<LogEvent>,
    pub error_message: Option<ErrorReason>,
}

/// Mathematical value of a snapshot.
pub ghost struct SnapshotModel {
    pub state: ServiceMachineState,
    pub wifi: WifiStatus,
    pub internet: InternetStatus,
    pub last_kick_ms: Option<u64>,
    pub interval_seconds: u64,
    pub logs: Seq<LogEvent>,
    pub error: Option<ErrorReason>,
}

impl View for ServiceSnapshot {
    type V = SnapshotModel;

    open spec fn view(&self) -> SnapshotModel {
        SnapshotModel {
            state: self.current_state,
            wifi: self.wifi_status,
            internet: self.internet_status,
            last_kick_ms: self.last_kick_time_ms,
            interval_seconds: self.interval_seconds,
            logs: self.logs@,
            error: self.error_message,
        }
    }
}

/// The service's shared state. All fields are private: the lifecycle state
/// is mutated only through `transition`, which enforces the table.
pub struct Service {
    current_state: ServiceMachineState,
    wifi_status: WifiStatus,
    internet_status: InternetStatus,
    last_kick_time_ms: Option<u64>,
    interval_seconds: u64,
    logs: Vec<LogEvent>,
    next_log_id: u64,
    error_message: Option<ErrorReason>,
    worker_present: bool,
}

/// Mathematical value of the service state.
#[verifier::ext_equal]
pub ghost struct ServiceModel {
    pub state: ServiceMachineState,
    pub wifi: WifiStatus,
    pub internet: InternetStatus,
    pub last_kick_ms: Option<u64>,
    pub interval_seconds: u64,
    pub logs: Seq<LogEvent>,
    pub next_log_id: u64,
    pub error: Option<ErrorReason>,
    pub worker_present: bool,
}

impl View for Service {
    type V = ServiceModel;

    closed spec fn view(&self) -> ServiceModel {
        ServiceModel {
            state: self.current_state,
            wifi: self.wifi_status,
            internet: self.internet_status,
            last_kick_ms: self.last_kick_time_ms,
            interval_seconds: self.interval_seconds,
            logs: self.logs@,
            next_log_id: self.next_log_id,
            error: self.error_message,
            worker_present: self.worker_present,
        }
    }
}

impl ServiceModel {
    /// Well-formedness: the log is bounded and ordered, the interval
    /// respects the floor, and a worker is tracked exactly while Running.
    pub open spec fn inv(self) -> bool {
        &&& log_inv(self.logs, self.next_log_id)
        &&& self.interval_seconds >= MIN_INTERVAL_SECONDS
        &&& (self.worker_present <==> self.state == ServiceMachineState::Running)
    }

    /// Room to assign `n` more log ids without exhausting the id space.
    pub open spec fn can_log(self, n: u64) -> bool {
        self.next_log_id + n <= u64::MAX
    }
}

/// A fresh entry appended at the front of the log, oldest evicted if full.
pub open spec fn spec_push_log(m: ServiceModel, message: LogMessage, now: u64) -> ServiceModel {
    let entry = LogEvent { id: m.next_log_id, timestamp_ms: now, message };
    ServiceModel {
        logs: bounded_push(m.logs, entry),
        next_log_id: (m.next_log_id + 1) as u64,
        ..m
    }
}

/// A requested transition: taken when the table allows it, else no change.
pub open spec fn spec_try_transition(m: ServiceModel, to: ServiceMachineState) -> ServiceModel {
    if valid_transition(m.state, to) {
        ServiceModel { state: to, ..m }
    } else {
        m
    }
}

/// The generic error-stop: record the reason, force Error, log the failure,
/// force Error -> Stopped, drop the worker, log the recovery.
pub open spec fn spec_error_stop(m: ServiceModel, reason: ErrorReason, now: u64) -> ServiceModel {
    let failed = spec_push_log(
        ServiceModel { state: ServiceMachineState::Error, error: Some(reason), ..m },
        LogMessage::UnexpectedFailure(reason),
        now,
    );
    spec_push_log(
        ServiceModel {
            state: ServiceMachineState::Stopped,
            worker_present: false,
            ..failed
        },
        LogMessage::StoppedAfterError,
        now,
    )
}

/// The stop-for-connectivity-loss procedure: a no-op unless Running;
/// otherwise record which signal was lost, pass through Stopping to
/// Stopped, drop the worker, and log the way down.
pub open spec fn spec_stop_for_connectivity(m: ServiceModel, wifi_lost: bool, now: u64) -> ServiceModel {
    if m.state != ServiceMachineState::Running {
        m
    } else {
        let marked = if wifi_lost {
            ServiceModel { wifi: WifiStatus::Disconnected, internet: InternetStatus::Unknown, ..m }
        } else {
            ServiceModel { internet: InternetStatus::Offline, ..m }
        };
        let stopping = spec_push_log(
            ServiceModel { state: ServiceMachineState::Stopping, ..marked },
            if wifi_lost {
                LogMessage::WifiLostWhileRunning
            } else {
                LogMessage::InternetLostWhileRunning
            },
            now,
        );
        spec_push_log(
            ServiceModel {
                state: ServiceMachineState::Stopped,
                worker_present: false,
                ..stopping
            },
            LogMessage::MovedToStopped,
            now,
        )
    }
}

/// Effect of asking to start: a no-op unless Stopped, else Stopped ->
/// Starting, prior error cleared, "Start requested." logged.
pub open spec fn spec_start_begin(m: ServiceModel, now: u64) -> ServiceModel {
    if m.state != ServiceMachineState::Stopped {
        m
    } else {
        spec_push_log(
            ServiceModel { state: ServiceMachineState::Starting, error: None, ..m },
            LogMessage::StartRequested,
            now,
        )
    }
}

pub open spec fn spec_start_begin_action(m: ServiceModel) -> StartBegin {
    if m.state != ServiceMachineState::Stopped {
        StartBegin::AlreadyActive
    } else {
        StartBegin::CheckLink
    }
}

/// Effect of the start sequence seeing the link probe: Connected is
/// recorded and the start goes on; a probe failure or Disconnected declines
/// the start, records an explanatory error, and returns to Stopped.
pub open spec fn spec_start_link(m: ServiceModel, probe: LinkProbe, now: u64) -> ServiceModel {
    match probe {
        LinkProbe::Connected => ServiceModel { wifi: WifiStatus::Connected, ..m },
        LinkProbe::Disconnected => spec_try_transition(
            spec_push_log(
                ServiceModel {
                    wifi: WifiStatus::Disconnected,
                    internet: InternetStatus::Unknown,
                    error: Some(ErrorReason::WifiOffStartBlocked),
                    ..m
                },
                LogMessage::StartBlockedWifiDisconnected,
                now,
            ),
            ServiceMachineState::Stopped,
        ),
        LinkProbe::Failed(e) => spec_try_transition(
            spec_push_log(
                ServiceModel {
                    wifi: WifiStatus::Unknown,
                    error: Some(ErrorReason::WifiUnknownStartBlocked),
                    ..m
                },
                LogMessage::WifiCheckFailed(e),
                now,
            ),
            ServiceMachineState::Stopped,
        ),
    }
}

pub open spec fn spec_start_link_action(probe: LinkProbe) -> StartAfterLink {
    match probe {
        LinkProbe::Connected => StartAfterLink::CheckInternet,
        _ => StartAfterLink::Declined,
    }
}

/// Effect of the start sequence seeing the reachability probe: Offline
/// declines the start; Online moves Starting -> Running and hands out a
/// worker — unless a race made that transition illegal, in which case only
/// the recorded status changes.
pub open spec fn spec_start_net(m: ServiceModel, online: bool, now: u64) -> ServiceModel {
    if !online {
        spec_try_transition(
            spec_push_log(
                ServiceModel {
                    internet: InternetStatus::Offline,
                    error: Some(ErrorReason::InternetUnavailableStartBlocked),
                    ..m
                },
                LogMessage::StartBlockedInternetOffline,
                now,
            ),
            ServiceMachineState::Stopped,
        )
    } else {
        let online_m = ServiceModel { internet: InternetStatus::Online, ..m };
        if valid_transition(m.state, ServiceMachineState::Running) {
            ServiceModel {
                worker_present: true,
                ..spec_push_log(
                    ServiceModel { state: ServiceMachineState::Running, ..online_m },
                    LogMessage::TransitionedToRunning,
                    now,
                )
            }
        } else {
            online_m
        }
    }
}

pub open spec fn spec_start_net_action(m: ServiceModel, online: bool) -> StartAfterNet {
    if !online {
        StartAfterNet::DeclinedOffline
    } else if valid_transition(m.state, ServiceMachineState::Running) {
        StartAfterNet::SpawnWorker
    } else {
        StartAfterNet::TransitionFailed(
            InvalidTransition { from: m.state, to: ServiceMachineState::Running },
        )
    }
}

/// Effect of asking to stop: a no-op unless Running, else Running ->
/// Stopping, "Stop requested by user." logged, the worker handle taken.
pub open spec fn spec_stop_begin(m: ServiceModel, now: u64) -> ServiceModel {
    if m.state != ServiceMachineState::Running {
        m
    } else {
        spec_push_log(
            ServiceModel {
                state: ServiceMachineState::Stopping,
                worker_present: false,
                ..m
            },
            LogMessage::StopRequested,
            now,
        )
    }
}

pub open spec fn spec_stop_begin_action(m: ServiceModel) -> StopBegin {
    if m.state != ServiceMachineState::Running {
        StopBegin::NotRunning
    } else {
        StopBegin::CancelWorker
    }
}

/// Effect of finishing a stop: if still Stopping, move to Stopped, clear
/// the error, and log; a no-op otherwise.
pub open spec fn spec_stop_finish(m: ServiceModel, now: u64) -> ServiceModel {
    if m.state == ServiceMachineState::Stopping {
        spec_push_log(
            ServiceModel {
                state: ServiceMachineState::Stopped,
                worker_present: false,
                error: None,
                ..m
            },
            LogMessage::ServiceStoppedByUser,
            now,
        )
    } else {
        m
    }
}

/// Effect of the kick outcome on a manual kick: success records the kick
/// time and logs it; failure routes through the generic error-stop.
pub open spec fn spec_kick_now_finish(m: ServiceModel, ok: bool, now: u64) -> ServiceModel {
    if ok {
        spec_push_log(
            ServiceModel { last_kick_ms: Some(now), ..m },
            LogMessage::ManualKickSent,
            now,
        )
    } else {
        spec_error_stop(m, ErrorReason::ManualKickFailed, now)
    }
}

/// Effect of the worker seeing the link probe: Connected is recorded and
/// the iteration goes on; anything else stops for connectivity loss.
pub open spec fn spec_worker_link(m: ServiceModel, probe: LinkProbe, now: u64) -> ServiceModel {
    match probe {
        LinkProbe::Connected => ServiceModel { wifi: WifiStatus::Connected, ..m },
        _ => spec_stop_for_connectivity(m, true, now),
    }
}

/// Effect of the worker seeing the reachability probe: the status is
/// recorded either way; Offline stops for connectivity loss.
pub open spec fn spec_worker_internet(m: ServiceModel, online: bool, now: u64) -> ServiceModel {
    if online {
        ServiceModel { internet: InternetStatus::Online, ..m }
    } else {
        spec_stop_for_connectivity(
            ServiceModel { internet: InternetStatus::Offline, ..m },
            false,
            now,
        )
    }
}

/// Effect of the worker's kick outcome: success records the kick time and
/// logs it; failure routes through the generic error-stop.
pub open spec fn spec_worker_kick(m: ServiceModel, ok: bool, now: u64) -> ServiceModel {
    if ok {
        spec_push_log(
            ServiceModel { last_kick_ms: Some(now), ..m },
            LogMessage::KickSent,
            now,
        )
    } else {
        spec_error_stop(m, ErrorReason::KickRequestFailed, now)
    }
}

/// Effect of setting the interval: floor-clamped, stored, logged.
pub open spec fn spec_set_interval(m: ServiceModel, requested: u64, now: u64) -> ServiceModel {
    let clamped = if requested < MIN_INTERVAL_SECONDS {
        MIN_INTERVAL_SECONDS
    } else {
        requested
    };
    spec_push_log(
        ServiceModel { interval_seconds: clamped, ..m },
        LogMessage::IntervalSet(clamped),
        now,
    )
}

/// The projection a snapshot returns.
pub open spec fn spec_snapshot(m: ServiceModel) -> SnapshotModel {
    SnapshotModel {
        state: m.state,
        wifi: m.wifi,
        internet: m.internet,
        last_kick_ms: m.last_kick_ms,
        interval_seconds: m.interval_seconds,
        logs: m.logs,
        error: m.error,
    }
}

/// The state a fresh service starts in: Stopped, both statuses Unknown,
/// default interval, one seed log entry, no worker.
pub open spec fn spec_new_service(now: u64) -> ServiceModel {
    spec_push_log(
        ServiceModel {
            state: ServiceMachineState::Stopped,
            wifi: WifiStatus::Unknown,
            internet: InternetStatus::Unknown,
            last_kick_ms: None,
            interval_seconds: DEFAULT_INTERVAL_SECONDS,
            logs: Seq::empty(),
            next_log_id: 1,
            error: None,
            worker_present: false,
        },
        LogMessage::ServiceInitialized,
        now,
    )
}

impl Service {
    /// A fresh service: Stopped, statuses Unknown, one seed entry.
    pub fn new(now: u64) -> (s: Service)
        ensures
            s@ == spec_new_service(now),
            s@.inv(),
    {
        let mut s = Service {
            current_state: ServiceMachineState::Stopped,
            wifi_status: WifiStatus::Unknown,
            internet_status: InternetStatus::Unknown,
            last_kick_time_ms: None,
            interval_seconds: DEFAULT_INTERVAL_SECONDS,
            logs: Vec::new(),
            next_log_id: 1,
            error_message: None,
            worker_present: false,
        };
        s.push_log(LogMessage::ServiceInitialized, now);
        s
    }

    /// Room to record `n` more events; callers outside the proof must test
    /// this before a mutating command.
    pub fn can_log(&self, n: u64) -> (r: bool)
        ensures
            r == self@.can_log(n),
    {
        n <= u64::MAX - self.next_log_id
    }

    /// Record one event, evicting the oldest entry when the log is full.
    fn push_log(&mut self, message: LogMessage, now: u64) -> (entry_id: u64)
        requires
            log_inv(old(self)@.logs, old(self)@.next_log_id),
            old(self)@.can_log(1),
        ensures
            final(self)@ == spec_push_log(old(self)@, message, now),
            log_inv(final(self)@.logs, final(self)@.next_log_id),
            entry_id == old(self)@.next_log_id,
    {
        let entry = LogEvent { id: self.next_log_id, timestamp_ms: now, message };
        proof {
            crate::activity::lemma_bounded_push_inv(self@.logs, self@.next_log_id, entry);
        }
        let id: u64 = self.next_log_id;
        self.next_log_id = self.next_log_id + 1;
        self.logs.insert(0, entry);
        if self.logs.len() > MAX_LOGS {
            self.logs.pop();
        }
        proof {
            let pushed = bounded_push(old(self)@.logs, entry);
            assert(self@.logs =~= pushed);
            assert(self@ =~= spec_push_log(old(self)@, message, now));
        }
        id
    }

    /// One requested transition, committed only if the table allows it; a
    /// denied request changes nothing and reports the offending pair.
    pub fn transition(&mut self, to: ServiceMachineState) -> (r: Result<(), InvalidTransition>)
        ensures
            final(self)@ == spec_try_transition(old(self)@, to),
            r is Ok <==> valid_transition(old(self)@.state, to),
            r matches Err(e) ==> e == (InvalidTransition { from: old(self)@.state, to }),
    {
        if crate::machine::is_valid_transition(self.current_state, to) {
            self.current_state = to;
            proof {
                assert(self@ =~= spec_try_transition(old(self)@, to));
            }
            Ok(())
        } else {
            Err(InvalidTransition { from: self.current_state, to })
        }
    }

    /// Pure read of the current state, point-in-time consistent.
    pub fn snapshot(&self) -> (snap: ServiceSnapshot)
        ensures
            snap@ == spec_snapshot(self@),
    {
        let mut logs: Vec<LogEvent> = Vec::new();
        let mut i: usize = 0;
        while i < self.logs.len()
            invariant
                i <= self.logs@.len(),
                logs@ == self.logs@.take(i as int),
            decreases self.logs@.len() - i,
        {
            logs.push(self.logs[i]);
            proof {
                assert(logs@ =~= self.logs@.take(i as int + 1));
            }
            i = i + 1;
        }
        proof {
            assert(self.logs@.take(i as int) =~= self.logs@);
        }
        ServiceSnapshot {
            current_state: self.current_state,
            wifi_status: self.wifi_status,
            internet_status: self.internet_status,
            last_kick_time_ms: self.last_kick_time_ms,
            interval_seconds: self.interval_seconds,
            logs,
            error_message: self.error_message,
        }
    }

    /// Record the reason, force the machine through Error back to Stopped,
    /// and drop the worker: the single place that guarantees every
    /// unrecoverable condition lands back in Stopped.
    pub fn set_error_and_stop(&mut self, reason: ErrorReason, now: u64) -> (notice: Notice)
        requires
            old(self)@.inv(),
            old(self)@.can_log(2),
        ensures
            final(self)@ == spec_error_stop(old(self)@, reason, now),
            final(self)@.inv(),
            final(self)@.state == ServiceMachineState::Stopped,
            notice == Notice::UnexpectedErrorStopped,
    {
        self.error_message = Some(reason);
        let _ = self.transition(ServiceMachineState::Error);
        self.push_log(LogMessage::UnexpectedFailure(reason), now);
        let _ = self.transition(ServiceMachineState::Stopped);
        self.worker_present = false;
        self.push_log(LogMessage::StoppedAfterError, now);
        proof {
            assert(self@ =~= spec_error_stop(old(self)@, reason, now));
        }
        Notice::UnexpectedErrorStopped
    }

    /// The worker (or a command) found connectivity gone: idempotent stop,
    /// recording which signal was lost. Returns the notification to show,
    /// or None when the machine had already left Running.
    pub fn stop_for_connectivity(&mut self, wifi_lost: bool, now: u64) -> (notice: Option<
        Notice,
    >)
        requires
            old(self)@.inv(),
            old(self)@.can_log(2),
        ensures
            final(self)@ == spec_stop_for_connectivity(old(self)@, wifi_lost, now),
            final(self)@.inv(),
            notice == if old(self)@.state == ServiceMachineState::Running {
                Some(
                    if wifi_lost {
                        Notice::WifiDisconnectedStopped
                    } else {
                        Notice::InternetLostStopped
                    },
                )
            } else {
                None::<Notice>
            },
    {
        if self.current_state != ServiceMachineState::Running {
            return None;
        }
        if wifi_lost {
            self.wifi_status = WifiStatus::Disconnected;
            self.internet_status = InternetStatus::Unknown;
        } else {
            self.internet_status = InternetStatus::Offline;
        }
        if self.transition(ServiceMachineState::Stopping).is_err() {
            self.set_error_and_stop(ErrorReason::StoppingTransitionFailed, now);
            return Some(Notice::UnexpectedErrorStopped);
        }
        if wifi_lost {
            self.push_log(LogMessage::WifiLostWhileRunning, now);
        } else {
            self.push_log(LogMessage::InternetLostWhileRunning, now);
        }
        self.worker_present = false;
        if self.transition(ServiceMachineState::Stopped).is_err() {
            self.set_error_and_stop(ErrorReason::StoppedTransitionFailed, now);
            return Some(Notice::UnexpectedErrorStopped);
        }
        self.push_log(LogMessage::MovedToStopped, now);
        proof {
            assert(self@ =~= spec_stop_for_connectivity(old(self)@, wifi_lost, now));
        }
        if wifi_lost {
            Some(Notice::WifiDisconnectedStopped)
        } else {
            Some(Notice::InternetLostStopped)
        }
    }

    /// Ask to start: idempotent when not Stopped; otherwise the machine
    /// enters Starting and the caller must run the link check.
    pub fn start_service_begin(&mut self, now: u64) -> (r: StartBegin)
        requires
            old(self)@.inv(),
            old(self)@.can_log(1),
        ensures
            final(self)@ == spec_start_begin(old(self)@, now),
            final(self)@.inv(),
            r == spec_start_begin_action(old(self)@),
    {
        if self.current_state != ServiceMachineState::Stopped {
            return StartBegin::AlreadyActive;
        }
        let _ = self.transition(ServiceMachineState::Starting);
        self.error_message = None;
        self.push_log(LogMessage::StartRequested, now);
        proof {
            assert(self@ =~= spec_start_begin(old(self)@, now));
        }
        StartBegin::CheckLink
    }

    /// The start sequence learns what the link probe said.
    pub fn start_service_link(&mut self, probe: LinkProbe, now: u64) -> (r: (
        StartAfterLink,
        Option<Notice>,
    ))
        requires
            old(self)@.inv(),
            old(self)@.can_log(1),
        ensures
            final(self)@ == spec_start_link(old(self)@, probe, now),
            final(self)@.inv(),
            r.0 == spec_start_link_action(probe),
            r.1 == if probe is Connected {
                None::<Notice>
            } else {
                Some(Notice::WifiOffTurnOn)
            },
    {
        match probe {
            LinkProbe::Connected => {
                self.wifi_status = WifiStatus::Connected;
                (StartAfterLink::CheckInternet, None)
            },
            LinkProbe::Disconnected => {
                self.wifi_status = WifiStatus::Disconnected;
                self.internet_status = InternetStatus::Unknown;
                self.error_message = Some(ErrorReason::WifiOffStartBlocked);
                self.push_log(LogMessage::StartBlockedWifiDisconnected, now);
                let _ = self.transition(ServiceMachineState::Stopped);
                proof {
                    assert(self@ =~= spec_start_link(old(self)@, probe, now));
                }
                (StartAfterLink::Declined, Some(Notice::WifiOffTurnOn))
            },
            LinkProbe::Failed(e) => {
                self.wifi_status = WifiStatus::Unknown;
                self.error_message = Some(ErrorReason::WifiUnknownStartBlocked);
                self.push_log(LogMessage::WifiCheckFailed(e), now);
                let _ = self.transition(ServiceMachineState::Stopped);
                proof {
                    assert(self@ =~= spec_start_link(old(self)@, probe, now));
                }
                (StartAfterLink::Declined, Some(Notice::WifiOffTurnOn))
            },
        }
    }

    /// The start sequence learns what the reachability probe said. On
    /// `SpawnWorker` the caller spawns the worker loop it now owns.
    pub fn start_service_internet(&mut self, online: bool, now: u64) -> (r: StartAfterNet)
        requires
            old(self)@.inv(),
            old(self)@.can_log(1),
        ensures
            final(self)@ == spec_start_net(old(self)@, online, now),
            final(self)@.inv(),
            r == spec_start_net_action(old(self)@, online),
    {
        if !online {
            self.internet_status = InternetStatus::Offline;
            self.error_message = Some(ErrorReason::InternetUnavailableStartBlocked);
            self.push_log(LogMessage::StartBlockedInternetOffline, now);
            let _ = self.transition(ServiceMachineState::Stopped);
            proof {
                assert(self@ =~= spec_start_net(old(self)@, online, now));
            }
            return StartAfterNet::DeclinedOffline;
        }
        self.internet_status = InternetStatus::Online;
        match self.transition(ServiceMachineState::Running) {
            Ok(_) => {
                self.push_log(LogMessage::TransitionedToRunning, now);
                self.worker_present = true;
                proof {
                    assert(self@ =~= spec_start_net(old(self)@, online, now));
                }
                StartAfterNet::SpawnWorker
            },
            Err(e) => {
                proof {
                    assert(self@ =~= spec_start_net(old(self)@, online, now));
                }
                StartAfterNet::TransitionFailed(e)
            },
        }
    }

    /// Ask to stop: idempotent when not Running; otherwise the machine
    /// enters Stopping and the caller cancels the worker it holds (a handle
    /// already gone is fine), then finishes the stop.
    pub fn stop_service_begin(&mut self, now: u64) -> (r: StopBegin)
        requires
            old(self)@.inv(),
            old(self)@.can_log(1),
        ensures
            final(self)@ == spec_stop_begin(old(self)@, now),
            final(self)@.inv(),
            r == spec_stop_begin_action(old(self)@),
    {
        if self.current_state != ServiceMachineState::Running {
            return StopBegin::NotRunning;
        }
        let _ = self.transition(ServiceMachineState::Stopping);
        self.push_log(LogMessage::StopRequested, now);
        self.worker_present = false;
        proof {
            assert(self@ =~= spec_stop_begin(old(self)@, now));
        }
        StopBegin::CancelWorker
    }

    /// Finish a stop: if still Stopping, land in Stopped, clear the error
    /// and log it; a no-op if something else already moved the machine.
    pub fn stop_service_finish(&mut self, now: u64)
        requires
            old(self)@.inv(),
            old(self)@.can_log(1),
        ensures
            final(self)@ == spec_stop_finish(old(self)@, now),
            final(self)@.inv(),
    {
        if self.current_state == ServiceMachineState::Stopping {
            let _ = self.transition(ServiceMachineState::Stopped);
            self.worker_present = false;
            self.error_message = None;
            self.push_log(LogMessage::ServiceStoppedByUser, now);
            proof {
                assert(self@ =~= spec_stop_finish(old(self)@, now));
            }
        }
    }

    /// Ask for a manual kick: a no-op unless Running.
    pub fn kick_now_begin(&self) -> (r: KickNowBegin)
        ensures
            r == (if self@.state == ServiceMachineState::Running {
                KickNowBegin::SendKick
            } else {
                KickNowBegin::NotRunning
            }),
    {
        if self.current_state == ServiceMachineState::Running {
            KickNowBegin::SendKick
        } else {
            KickNowBegin::NotRunning
        }
    }

    /// The manual kick came back: success records and logs it; failure
    /// routes through the generic error-stop.
    pub fn kick_now_finish(&mut self, ok: bool, now: u64) -> (notice: Option<Notice>)
        requires
            old(self)@.inv(),
            old(self)@.can_log(2),
        ensures
            final(self)@ == spec_kick_now_finish(old(self)@, ok, now),
            final(self)@.inv(),
            notice == if ok {
                None::<Notice>
            } else {
                Some(Notice::UnexpectedErrorStopped)
            },
    {
        if !ok {
            let n = self.set_error_and_stop(ErrorReason::ManualKickFailed, now);
            return Some(n);
        }
        self.last_kick_time_ms = Some(now);
        self.push_log(LogMessage::ManualKickSent, now);
        proof {
            assert(self@ =~= spec_kick_now_finish(old(self)@, ok, now));
        }
        None
    }

    /// Top of a worker iteration: whether the loop may go on, and the
    /// effective (floor-clamped) interval to sleep afterwards.
    pub fn worker_poll(&self) -> (r: (bool, u64))
        ensures
            r.0 == (self@.state == ServiceMachineState::Running),
            r.1 == if self@.interval_seconds >= MIN_INTERVAL_SECONDS {
                self@.interval_seconds
            } else {
                MIN_INTERVAL_SECONDS
            },
    {
        let interval: u64 = if self.interval_seconds >= MIN_INTERVAL_SECONDS {
            self.interval_seconds
        } else {
            MIN_INTERVAL_SECONDS
        };
        (self.current_state == ServiceMachineState::Running, interval)
    }

    /// The worker's link re-check came back.
    pub fn worker_link(&mut self, probe: LinkProbe, now: u64) -> (r: (WorkerStep, Option<Notice>))
        requires
            old(self)@.inv(),
            old(self)@.can_log(2),
        ensures
            final(self)@ == spec_worker_link(old(self)@, probe, now),
            final(self)@.inv(),
            r.0 == (if probe is Connected {
                WorkerStep::Continue
            } else {
                WorkerStep::Exit
            }),
            !(probe is Connected) ==> r.1 == (if old(self)@.state == ServiceMachineState::Running {
                Some(Notice::WifiDisconnectedStopped)
            } else {
                None::<Notice>
            }),
            probe is Connected ==> r.1 is None,
    {
        match probe {
            LinkProbe::Connected => {
                self.wifi_status = WifiStatus::Connected;
                (WorkerStep::Continue, None)
            },
            _ => {
                let notice = self.stop_for_connectivity(true, now);
                (WorkerStep::Exit, notice)
            },
        }
    }

    /// The worker's reachability re-check came back; the status is recorded
    /// either way.
    pub fn worker_internet(&mut self, online: bool, now: u64) -> (r: (WorkerStep, Option<Notice>))
        requires
            old(self)@.inv(),
            old(self)@.can_log(2),
        ensures
            final(self)@ == spec_worker_internet(old(self)@, online, now),
            final(self)@.inv(),
            r.0 == (if online {
                WorkerStep::Continue
            } else {
                WorkerStep::Exit
            }),
            !online ==> r.1 == (if old(self)@.state == ServiceMachineState::Running {
                Some(Notice::InternetLostStopped)
            } else {
                None::<Notice>
            }),
            online ==> r.1 is None,
    {
        if online {
            self.internet_status = InternetStatus::Online;
            (WorkerStep::Continue, None)
        } else {
            self.internet_status = InternetStatus::Offline;
            let notice = self.stop_for_connectivity(false, now);
            (WorkerStep::Exit, notice)
        }
    }

    /// The worker's kick came back: success records and logs it, and the
    /// loop sleeps and goes on; failure ends the running period through the
    /// generic error-stop.
    pub fn worker_kick(&mut self, ok: bool, now: u64) -> (r: (WorkerStep, Option<Notice>))
        requires
            old(self)@.inv(),
            old(self)@.can_log(2),
        ensures
            final(self)@ == spec_worker_kick(old(self)@, ok, now),
            final(self)@.inv(),
            r.0 == (if ok {
                WorkerStep::Continue
            } else {
                WorkerStep::Exit
            }),
            r.1 == if ok {
                None::<Notice>
            } else {
                Some(Notice::UnexpectedErrorStopped)
            },
    {
        if !ok {
            let n = self.set_error_and_stop(ErrorReason::KickRequestFailed, now);
            return (WorkerStep::Exit, Some(n));
        }
        self.last_kick_time_ms = Some(now);
        self.push_log(LogMessage::KickSent, now);
        proof {
            assert(self@ =~= spec_worker_kick(old(self)@, ok, now));
        }
        (WorkerStep::Continue, None)
    }

    /// Set the kick interval, clamped to the floor of
    /// `MIN_INTERVAL_SECONDS`; never rejected, no state-machine involvement.
    pub fn set_interval(&mut self, requested: u64, now: u64) -> (snap: ServiceSnapshot)
        requires
            old(self)@.inv(),
            old(self)@.can_log(1),
        ensures
            final(self)@ == spec_set_interval(old(self)@, requested, now),
            final(self)@.inv(),
            final(self)@.interval_seconds == if requested < MIN_INTERVAL_SECONDS {
                MIN_INTERVAL_SECONDS
            } else {
                requested
            },
            snap@ == spec_snapshot(final(self)@),
    {
        let clamped: u64 = if requested < MIN_INTERVAL_SECONDS {
            MIN_INTERVAL_SECONDS
        } else {
            requested
        };
        self.interval_seconds = clamped;
        self.push_log(LogMessage::IntervalSet(clamped), now);
        proof {
            assert(self@ =~= spec_set_interval(old(self)@, requested, now));
        }
        self.snapshot()
    }
}

} // verus!
