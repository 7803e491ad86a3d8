//! Laws that relate whole commands, proved over the service model. The
//! composed command effects here chain the step functions exactly as a
//! caller drives them: the link probe runs only when asked for, the
//! reachability probe only after the link was seen Connected.

use vstd::prelude::*;
use crate::machine::ServiceMachineState;
use crate::service::{
    LinkProbe, ServiceModel, StartBegin, StopBegin, spec_snapshot, spec_start_begin,
    spec_start_begin_action, spec_start_link, spec_start_net, spec_stop_begin,
    spec_stop_begin_action, spec_stop_finish,
};

verus! {

/// The full effect of one start command on the service state.
pub open spec fn spec_start_call(
    m: ServiceModel,
    probe: LinkProbe,
    online: bool,
    now: u64,
) -> ServiceModel {
    if m.state != ServiceMachineState::Stopped {
        m
    } else {
        let begun = spec_start_begin(m, now);
        let after_link = spec_start_link(begun, probe, now);
        if probe is Connected {
            spec_start_net(after_link, online, now)
        } else {
            after_link
        }
    }
}

/// The full effect of one stop command on the service state.
pub open spec fn spec_stop_call(m: ServiceModel, now: u64) -> ServiceModel {
    if m.state != ServiceMachineState::Running {
        m
    } else {
        spec_stop_finish(spec_stop_begin(m, now), now)
    }
}

/// Law: Start is idempotent. A successful start leaves the machine Running
/// with exactly one worker; a second start in immediate succession is
/// answered with `AlreadyActive`, changes nothing, and so never produces a
/// second worker.
pub proof fn lemma_start_idempotent(m: ServiceModel, now1: u64, now2: u64)
    requires
        m.inv(),
        m.state == ServiceMachineState::Stopped,
    ensures
        ({
            let started = spec_start_call(m, LinkProbe::Connected, true, now1);
            &&& started.state == ServiceMachineState::Running
            &&& started.worker_present
            &&& spec_start_begin_action(started) == StartBegin::AlreadyActive
            &&& spec_start_call(started, LinkProbe::Connected, true, now2) == started
        }),
{
}

/// Law: Stop is idempotent. A stop while already Stopped is answered with
/// `NotRunning`, leaves the state untouched, and returns the current
/// snapshot unchanged.
pub proof fn lemma_stop_idempotent(m: ServiceModel, now: u64)
    requires
        m.state == ServiceMachineState::Stopped,
    ensures
        spec_stop_begin_action(m) == StopBegin::NotRunning,
        spec_stop_call(m, now) == m,
        spec_snapshot(spec_stop_call(m, now)) == spec_snapshot(m),
{
}

/// Every requested transition moves the lifecycle state exactly as the
/// machine's step function says: along a table edge, or not at all. Chained
/// with `lemma_machine_run_only_table_edges`, the service never occupies a
/// state outside a table path from where it began.
pub proof fn lemma_transition_is_machine_step(
    m: ServiceModel,
    to: ServiceMachineState,
)
    ensures
        crate::service::spec_try_transition(m, to).state == crate::machine::machine_step(
            m.state,
            to,
        ),
{
}

/// One complete user command, with what its probes would report.
pub ghost enum CommandRecord {
    Start { probe: LinkProbe, online: bool, now: u64 },
    Stop { now: u64 },
}

/// Effect of one command.
pub open spec fn apply_command(m: ServiceModel, c: CommandRecord) -> ServiceModel {
    match c {
        CommandRecord::Start { probe, online, now } => spec_start_call(m, probe, online, now),
        CommandRecord::Stop { now } => spec_stop_call(m, now),
    }
}

/// Effect of a sequence of commands, applied in order.
pub open spec fn apply_commands(m: ServiceModel, cs: Seq<CommandRecord>) -> ServiceModel
    decreases cs.len(),
{
    if cs.len() == 0 {
        m
    } else {
        apply_commands(apply_command(m, cs[0]), cs.drop_first())
    }
}

/// A start is successful exactly when it finds the machine Stopped, the
/// link Connected and the internet reachable (it then spawns a worker).
pub open spec fn start_succeeds(m: ServiceModel, c: CommandRecord) -> bool {
    match c {
        CommandRecord::Start { probe, online, .. } => m.state == ServiceMachineState::Stopped
            && probe is Connected && online,
        CommandRecord::Stop { .. } => false,
    }
}

/// A stop is successful exactly when it finds the machine Running (it then
/// tears the worker down).
pub open spec fn stop_succeeds(m: ServiceModel, c: CommandRecord) -> bool {
    match c {
        CommandRecord::Start { .. } => false,
        CommandRecord::Stop { .. } => m.state == ServiceMachineState::Running,
    }
}

/// How many of the commands are successful starts, counted against the
/// state each one actually finds.
pub open spec fn successful_starts(m: ServiceModel, cs: Seq<CommandRecord>) -> int
    decreases cs.len(),
{
    if cs.len() == 0 {
        0int
    } else {
        (if start_succeeds(m, cs[0]) {
            1int
        } else {
            0int
        }) + successful_starts(apply_command(m, cs[0]), cs.drop_first())
    }
}

/// How many of the commands are successful stops.
pub open spec fn successful_stops(m: ServiceModel, cs: Seq<CommandRecord>) -> int
    decreases cs.len(),
{
    if cs.len() == 0 {
        0int
    } else {
        (if stop_succeeds(m, cs[0]) {
            1int
        } else {
            0int
        }) + successful_stops(apply_command(m, cs[0]), cs.drop_first())
    }
}

/// Between complete commands the machine rests in Stopped or Running, and
/// holds a worker exactly while Running.
pub open spec fn steady(m: ServiceModel) -> bool {
    &&& m.state == ServiceMachineState::Stopped || m.state == ServiceMachineState::Running
    &&& (m.worker_present <==> m.state == ServiceMachineState::Running)
}

/// Commands keep the machine steady, and the running flag moves exactly
/// with the balance of successful starts over successful stops.
pub proof fn lemma_commands_balance(m: ServiceModel, cs: Seq<CommandRecord>)
    requires
        steady(m),
    ensures
        steady(apply_commands(m, cs)),
        successful_starts(m, cs) - successful_stops(m, cs) == (if apply_commands(m, cs).state
            == ServiceMachineState::Running {
            1int
        } else {
            0int
        }) - (if m.state == ServiceMachineState::Running {
            1int
        } else {
            0int
        }),
    decreases cs.len(),
{
    if cs.len() > 0 {
        let m1 = apply_command(m, cs[0]);
        assert(steady(m1));
        lemma_commands_balance(m1, cs.drop_first());
    }
}

/// Law: any sequence of Start/Stop commands that ends with an equal number
/// of successful starts and successful stops leaves the machine in Stopped
/// with no worker handle present.
pub proof fn lemma_round_trip(m: ServiceModel, cs: Seq<CommandRecord>)
    requires
        steady(m),
        m.state == ServiceMachineState::Stopped,
        successful_starts(m, cs) == successful_stops(m, cs),
    ensures
        apply_commands(m, cs).state == ServiceMachineState::Stopped,
        !apply_commands(m, cs).worker_present,
{
    lemma_commands_balance(m, cs);
}

} // verus!
