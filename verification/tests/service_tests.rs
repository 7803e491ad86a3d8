use hutchboost::activity::{ErrorReason, LogMessage};
use hutchboost::machine::ServiceMachineState;
use hutchboost::service::{
    InternetStatus, KickNowBegin, LinkProbe, Notice, Service, StartAfterLink, StartAfterNet,
    StartBegin, StopBegin, WifiStatus, WorkerStep,
};

fn running_service() -> Service {
    let mut s = Service::new(1_000);
    assert_eq!(s.start_service_begin(1_001), StartBegin::CheckLink);
    let (after_link, notice) = s.start_service_link(LinkProbe::Connected, 1_002);
    assert_eq!(after_link, StartAfterLink::CheckInternet);
    assert_eq!(notice, None);
    assert_eq!(s.start_service_internet(true, 1_003), StartAfterNet::SpawnWorker);
    s
}

#[test]
fn fresh_service_snapshot() {
    let s = Service::new(500);
    let snap = s.snapshot();
    assert_eq!(snap.current_state, ServiceMachineState::Stopped);
    assert_eq!(snap.wifi_status, WifiStatus::Unknown);
    assert_eq!(snap.internet_status, InternetStatus::Unknown);
    assert_eq!(snap.last_kick_time_ms, None);
    assert_eq!(snap.interval_seconds, 120);
    assert_eq!(snap.error_message, None);
    assert_eq!(snap.logs.len(), 1);
    assert_eq!(snap.logs[0].id, 1);
    assert_eq!(snap.logs[0].timestamp_ms, 500);
    assert_eq!(snap.logs[0].message, LogMessage::ServiceInitialized);
}

#[test]
fn start_succeeds_when_connected_and_online() {
    let s = running_service();
    let snap = s.snapshot();
    assert_eq!(snap.current_state, ServiceMachineState::Running);
    assert_eq!(snap.wifi_status, WifiStatus::Connected);
    assert_eq!(snap.internet_status, InternetStatus::Online);
    assert_eq!(snap.error_message, None);
    assert_eq!(snap.logs[0].message, LogMessage::TransitionedToRunning);
    assert_eq!(snap.logs[1].message, LogMessage::StartRequested);
}

#[test]
fn start_declined_when_link_disconnected() {
    let mut s = Service::new(0);
    assert_eq!(s.start_service_begin(1), StartBegin::CheckLink);
    let (after_link, notice) = s.start_service_link(LinkProbe::Disconnected, 2);
    assert_eq!(after_link, StartAfterLink::Declined);
    assert_eq!(notice, Some(Notice::WifiOffTurnOn));
    let snap = s.snapshot();
    assert_eq!(snap.current_state, ServiceMachineState::Stopped);
    assert_eq!(snap.wifi_status, WifiStatus::Disconnected);
    assert_eq!(snap.internet_status, InternetStatus::Unknown);
    assert_eq!(snap.error_message, Some(ErrorReason::WifiOffStartBlocked));
    assert_eq!(snap.logs[0].message, LogMessage::StartBlockedWifiDisconnected);
}

#[test]
fn start_declined_when_probe_fails() {
    let mut s = Service::new(0);
    assert_eq!(s.start_service_begin(1), StartBegin::CheckLink);
    let probe = LinkProbe::Failed(hutchboost::wifi::LinkProbeError::NonZeroExit);
    let (after_link, notice) = s.start_service_link(probe, 2);
    assert_eq!(after_link, StartAfterLink::Declined);
    assert_eq!(notice, Some(Notice::WifiOffTurnOn));
    let snap = s.snapshot();
    assert_eq!(snap.current_state, ServiceMachineState::Stopped);
    assert_eq!(snap.wifi_status, WifiStatus::Unknown);
    assert_eq!(snap.error_message, Some(ErrorReason::WifiUnknownStartBlocked));
    assert_eq!(
        snap.logs[0].message,
        LogMessage::WifiCheckFailed(hutchboost::wifi::LinkProbeError::NonZeroExit)
    );
}

#[test]
fn start_declined_when_offline() {
    let mut s = Service::new(0);
    assert_eq!(s.start_service_begin(1), StartBegin::CheckLink);
    let (after_link, _) = s.start_service_link(LinkProbe::Connected, 2);
    assert_eq!(after_link, StartAfterLink::CheckInternet);
    assert_eq!(s.start_service_internet(false, 3), StartAfterNet::DeclinedOffline);
    let snap = s.snapshot();
    assert_eq!(snap.current_state, ServiceMachineState::Stopped);
    assert_eq!(snap.wifi_status, WifiStatus::Connected);
    assert_eq!(snap.internet_status, InternetStatus::Offline);
    assert_eq!(snap.error_message, Some(ErrorReason::InternetUnavailableStartBlocked));
    assert_eq!(snap.logs[0].message, LogMessage::StartBlockedInternetOffline);
}

#[test]
fn start_is_idempotent_while_running() {
    let mut s = running_service();
    let before = s.snapshot();
    assert_eq!(s.start_service_begin(9_999), StartBegin::AlreadyActive);
    let after = s.snapshot();
    assert_eq!(after.current_state, ServiceMachineState::Running);
    assert_eq!(after.logs.len(), before.logs.len());
    assert_eq!(after.logs[0].id, before.logs[0].id);
}

#[test]
fn stop_is_idempotent_when_stopped() {
    let mut s = Service::new(0);
    let before = s.snapshot();
    assert_eq!(s.stop_service_begin(50), StopBegin::NotRunning);
    s.stop_service_finish(51);
    let after = s.snapshot();
    assert_eq!(after.current_state, ServiceMachineState::Stopped);
    assert_eq!(after.logs.len(), before.logs.len());
    assert_eq!(after.logs[0].id, before.logs[0].id);
}

#[test]
fn stop_tears_running_service_down() {
    let mut s = running_service();
    assert_eq!(s.stop_service_begin(2_000), StopBegin::CancelWorker);
    s.stop_service_finish(2_001);
    let snap = s.snapshot();
    assert_eq!(snap.current_state, ServiceMachineState::Stopped);
    assert_eq!(snap.error_message, None);
    assert_eq!(snap.logs[0].message, LogMessage::ServiceStoppedByUser);
    assert_eq!(snap.logs[1].message, LogMessage::StopRequested);
}

#[test]
fn worker_wifi_loss_stops_service() {
    let mut s = running_service();
    let (keep_going, interval) = s.worker_poll();
    assert!(keep_going);
    assert_eq!(interval, 120);
    let (step, notice) = s.worker_link(LinkProbe::Disconnected, 3_000);
    assert_eq!(step, WorkerStep::Exit);
    assert_eq!(notice, Some(Notice::WifiDisconnectedStopped));
    let snap = s.snapshot();
    assert_eq!(snap.current_state, ServiceMachineState::Stopped);
    assert_eq!(snap.wifi_status, WifiStatus::Disconnected);
    assert_eq!(snap.internet_status, InternetStatus::Unknown);
    assert_eq!(snap.logs[0].message, LogMessage::MovedToStopped);
    assert_eq!(snap.logs[1].message, LogMessage::WifiLostWhileRunning);
}

#[test]
fn worker_internet_loss_stops_service() {
    let mut s = running_service();
    let (step, notice) = s.worker_internet(false, 3_000);
    assert_eq!(step, WorkerStep::Exit);
    assert_eq!(notice, Some(Notice::InternetLostStopped));
    let snap = s.snapshot();
    assert_eq!(snap.current_state, ServiceMachineState::Stopped);
    assert_eq!(snap.internet_status, InternetStatus::Offline);
    assert_eq!(snap.logs[0].message, LogMessage::MovedToStopped);
    assert_eq!(snap.logs[1].message, LogMessage::InternetLostWhileRunning);
}

#[test]
fn worker_kick_failure_routes_through_error() {
    let mut s = running_service();
    let (step, notice) = s.worker_kick(false, 4_000);
    assert_eq!(step, WorkerStep::Exit);
    assert_eq!(notice, Some(Notice::UnexpectedErrorStopped));
    let snap = s.snapshot();
    assert_eq!(snap.current_state, ServiceMachineState::Stopped);
    assert_eq!(snap.error_message, Some(ErrorReason::KickRequestFailed));
    assert_eq!(snap.logs[0].message, LogMessage::StoppedAfterError);
    assert_eq!(
        snap.logs[1].message,
        LogMessage::UnexpectedFailure(ErrorReason::KickRequestFailed)
    );
}

#[test]
fn worker_kick_success_records_time() {
    let mut s = running_service();
    let (step, notice) = s.worker_kick(true, 4_242);
    assert_eq!(step, WorkerStep::Continue);
    assert_eq!(notice, None);
    let snap = s.snapshot();
    assert_eq!(snap.current_state, ServiceMachineState::Running);
    assert_eq!(snap.last_kick_time_ms, Some(4_242));
    assert_eq!(snap.logs[0].message, LogMessage::KickSent);
}

#[test]
fn worker_probe_failure_treated_as_wifi_loss() {
    let mut s = running_service();
    let probe = LinkProbe::Failed(hutchboost::wifi::LinkProbeError::Unsupported);
    let (step, notice) = s.worker_link(probe, 3_500);
    assert_eq!(step, WorkerStep::Exit);
    assert_eq!(notice, Some(Notice::WifiDisconnectedStopped));
    let snap = s.snapshot();
    assert_eq!(snap.current_state, ServiceMachineState::Stopped);
    assert_eq!(snap.wifi_status, WifiStatus::Disconnected);
    assert_eq!(snap.logs[1].message, LogMessage::WifiLostWhileRunning);
}

#[test]
fn worker_link_connected_continues() {
    let mut s = running_service();
    let (step, notice) = s.worker_link(LinkProbe::Connected, 3_600);
    assert_eq!(step, WorkerStep::Continue);
    assert_eq!(notice, None);
    let (step, notice) = s.worker_internet(true, 3_601);
    assert_eq!(step, WorkerStep::Continue);
    assert_eq!(notice, None);
    let snap = s.snapshot();
    assert_eq!(snap.current_state, ServiceMachineState::Running);
    assert_eq!(snap.wifi_status, WifiStatus::Connected);
    assert_eq!(snap.internet_status, InternetStatus::Online);
}

#[test]
fn connectivity_stop_skipped_when_not_running() {
    let mut s = Service::new(0);
    assert_eq!(s.stop_for_connectivity(true, 10), None);
    assert_eq!(s.stop_for_connectivity(false, 11), None);
    let snap = s.snapshot();
    assert_eq!(snap.current_state, ServiceMachineState::Stopped);
    assert_eq!(snap.wifi_status, WifiStatus::Unknown);
    assert_eq!(snap.logs.len(), 1);
}

#[test]
fn error_stop_from_any_state_lands_in_stopped() {
    let mut s = Service::new(0);
    let notice = s.set_error_and_stop(ErrorReason::ManualKickFailed, 20);
    assert_eq!(notice, Notice::UnexpectedErrorStopped);
    let snap = s.snapshot();
    assert_eq!(snap.current_state, ServiceMachineState::Stopped);
    assert_eq!(snap.error_message, Some(ErrorReason::ManualKickFailed));
    assert_eq!(
        snap.logs[1].message,
        LogMessage::UnexpectedFailure(ErrorReason::ManualKickFailed)
    );
    assert_eq!(snap.logs[0].message, LogMessage::StoppedAfterError);
}

#[test]
fn kick_now_noop_unless_running() {
    let s = Service::new(0);
    assert_eq!(s.kick_now_begin(), KickNowBegin::NotRunning);
    let r = running_service();
    assert_eq!(r.kick_now_begin(), KickNowBegin::SendKick);
}

#[test]
fn kick_now_success_and_failure() {
    let mut s = running_service();
    assert_eq!(s.kick_now_finish(true, 5_000), None);
    let snap = s.snapshot();
    assert_eq!(snap.last_kick_time_ms, Some(5_000));
    assert_eq!(snap.logs[0].message, LogMessage::ManualKickSent);

    let mut f = running_service();
    assert_eq!(f.kick_now_finish(false, 5_001), Some(Notice::UnexpectedErrorStopped));
    let snap = f.snapshot();
    assert_eq!(snap.current_state, ServiceMachineState::Stopped);
    assert_eq!(snap.error_message, Some(ErrorReason::ManualKickFailed));
}

#[test]
fn interval_clamped_to_floor() {
    let mut s = Service::new(0);
    let snap = s.set_interval(10, 1);
    assert_eq!(snap.interval_seconds, 60);
    assert_eq!(snap.logs[0].message, LogMessage::IntervalSet(60));
    let snap = s.set_interval(500, 2);
    assert_eq!(snap.interval_seconds, 500);
    assert_eq!(snap.logs[0].message, LogMessage::IntervalSet(500));
    let (_, effective) = s.worker_poll();
    assert_eq!(effective, 500);
}

#[test]
fn log_keeps_thirty_newest_with_increasing_ids() {
    let mut s = Service::new(0);
    // the seed entry plus 40 interval changes: 41 log-producing events
    for k in 0..40u64 {
        s.set_interval(60 + k, 100 + k);
    }
    let snap = s.snapshot();
    assert_eq!(snap.logs.len(), 30);
    // newest first: ids 41 down to 12, nothing reused across eviction
    for (pos, entry) in snap.logs.iter().enumerate() {
        assert_eq!(entry.id, 41 - pos as u64);
        assert_eq!(entry.message, LogMessage::IntervalSet(60 + (40 - pos as u64) - 1));
    }
}

#[test]
fn transition_table_enforced() {
    let mut s = Service::new(0);
    let denied = s.transition(ServiceMachineState::Running);
    assert!(denied.is_err());
    let pair = denied.unwrap_err();
    assert_eq!(pair.from, ServiceMachineState::Stopped);
    assert_eq!(pair.to, ServiceMachineState::Running);
    assert_eq!(s.snapshot().current_state, ServiceMachineState::Stopped);
    assert!(s.transition(ServiceMachineState::Starting).is_ok());
    assert!(s.transition(ServiceMachineState::Error).is_ok());
    assert!(s.transition(ServiceMachineState::Stopped).is_ok());
    assert_eq!(s.snapshot().current_state, ServiceMachineState::Stopped);
}

#[test]
fn can_log_reports_headroom() {
    let s = Service::new(0);
    assert!(s.can_log(2));
}
