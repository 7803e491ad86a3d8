//! The service lifecycle state machine: five states and a fixed transition
//! table. The table forbids skipping `Starting` on the way to `Running` and
//! forbids leaving `Stopping` anywhere but `Stopped`; any state may fail into
//! `Error`, and `Error -> Stopped` is the only recovery edge.

use vstd::prelude::*;

verus! {

/// Lifecycle state of the keep-alive service.
#[derive(Clone, Copy, Debug, PartialEq, Eq, Structural)]
pub enum ServiceMachineState {
    Stopped,
    Starting,
    Running,
    Stopping,
    Error,
}

/// The legal-transition table. All pairs not listed here are illegal.
pub open spec fn valid_transition(from: ServiceMachineState, to: ServiceMachineState) -> bool {
    ||| (from == ServiceMachineState::Stopped && to == ServiceMachineState::Starting)
    ||| (from == ServiceMachineState::Starting && to == ServiceMachineState::Running)
    ||| (from == ServiceMachineState::Starting && to == ServiceMachineState::Stopped)
    ||| (from == ServiceMachineState::Running && to == ServiceMachineState::Stopping)
    ||| (from == ServiceMachineState::Stopping && to == ServiceMachineState::Stopped)
    ||| to == ServiceMachineState::Error
    ||| (from == ServiceMachineState::Error && to == ServiceMachineState::Stopped)
}

/// Decides whether `from -> to` stands in the legal-transition table.
pub fn is_valid_transition(from: ServiceMachineState, to: ServiceMachineState) -> (b: bool)
    ensures
        b == valid_transition(from, to),
{
    matches!(
        (from, to),
        (ServiceMachineState::Stopped, ServiceMachineState::Starting)
            | (ServiceMachineState::Starting, ServiceMachineState::Running)
            | (ServiceMachineState::Starting, ServiceMachineState::Stopped)
            | (ServiceMachineState::Running, ServiceMachineState::Stopping)
            | (ServiceMachineState::Stopping, ServiceMachineState::Stopped)
            | (_, ServiceMachineState::Error)
            | (ServiceMachineState::Error, ServiceMachineState::Stopped)
    )
}

/// One requested transition: taken when the table allows it, otherwise the
/// machine stays where it is.
pub open spec fn machine_step(
    current: ServiceMachineState,
    requested: ServiceMachineState,
) -> ServiceMachineState {
    if valid_transition(current, requested) {
        requested
    } else {
        current
    }
}

/// The sequence of states occupied when a sequence of requested transitions
/// is applied in order, starting from `init` (which is itself occupied).
pub open spec fn machine_run(
    init: ServiceMachineState,
    requests: Seq<ServiceMachineState>,
) -> Seq<ServiceMachineState>
    decreases requests.len(),
{
    if requests.len() == 0 {
        seq![init]
    } else {
        seq![init] + machine_run(machine_step(init, requests[0]), requests.drop_first())
    }
}

/// Law: for every sequence of requested transitions, the machine only ever
/// occupies states reached from the starting state along edges of the
/// legal-transition table; a denied request leaves the state unchanged, so no
/// direct jump outside the table is ever observed.
pub proof fn lemma_machine_run_only_table_edges(
    init: ServiceMachineState,
    requests: Seq<ServiceMachineState>,
)
    ensures
        machine_run(init, requests).len() == requests.len() + 1,
        machine_run(init, requests)[0] == init,
        forall|i: int|
            0 <= i < requests.len() ==> #[trigger] machine_run(init, requests)[i + 1]
                == machine_step(machine_run(init, requests)[i], requests[i]),
        forall|i: int|
            0 <= i < requests.len() ==> machine_run(init, requests)[i + 1] == machine_run(
                init,
                requests,
            )[i] || valid_transition(
                machine_run(init, requests)[i],
                #[trigger] machine_run(init, requests)[i + 1],
            ),
    decreases requests.len(),
{
    if requests.len() == 0 {
    } else {
        let next = machine_step(init, requests[0]);
        let rest = requests.drop_first();
        lemma_machine_run_only_table_edges(next, rest);
        let run = machine_run(init, requests);
        let run_rest = machine_run(next, rest);
        assert(run == seq![init] + run_rest);
        assert forall|i: int| 0 <= i < requests.len() implies #[trigger] run[i + 1]
            == machine_step(run[i], requests[i]) by {
            if i == 0 {
                assert(run[1] == run_rest[0]);
            } else {
                assert(run[i] == run_rest[i - 1]);
                assert(run[i + 1] == run_rest[i]);
                assert(rest[i - 1] == requests[i]);
            }
        }
    }
}

} // verus!
