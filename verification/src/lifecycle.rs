//! Lifecycle control decisions: start, stop, restart and status over
//! the managed services' process states.
//!
//! The controller never touches a process itself. It decides what the
//! host should do from the state queried before the operation, and
//! concludes a report from the state queried again after the attempt;
//! the binary performs the attempts and the queries in between.

use vstd::prelude::*;
use crate::errors::KintError;
use crate::registry::ServiceId;

verus! {

/// The state of a managed service, derived on demand by querying its
/// backing process/unit and never cached across commands.
#[derive(Debug, Clone, Copy, PartialEq, Eq, Structural)]
pub enum ServiceState {
    NotInstalled,
    InstalledStopped,
    InstalledRunning,
    InstalledFailed,
}

/// The lifecycle operations.
#[derive(Debug, Clone, Copy, PartialEq, Eq, Structural)]
pub enum LifecycleOp {
    Start,
    Stop,
    Restart,
    Status,
}

/// The per-service outcome of one lifecycle operation.
#[derive(Debug, Clone, Copy, PartialEq, Eq, Structural)]
pub struct OpReport {
    pub service: ServiceId,
    pub previous: ServiceState,
    pub new_state: ServiceState,
    pub success: bool,
}

/// What the controller decides to do, given the state queried before
/// the operation.
#[derive(Debug, Clone, Copy, PartialEq, Eq, Structural)]
pub enum Decision {
    /// The service is not installed: fail without acting.
    Refuse,
    /// Nothing to attempt: the enclosed report already stands.
    NoOp(OpReport),
    /// Ask the host to stop the process, then conclude from the
    /// re-queried state.
    AttemptStop,
    /// Ask the host to start the process, then conclude from the
    /// re-queried state.
    AttemptStart,
    /// Restart: run the stop phase, and only if it succeeds the start
    /// phase.
    AttemptStopThenStart,
}

/// The controller's decision table. Status always succeeds without
/// acting; the other operations refuse a service that is not installed;
/// start on a running service and stop on a stopped one are no-op
/// successes.
pub open spec fn spec_decide(op: LifecycleOp, service: ServiceId, prev: ServiceState) -> Decision {
    match op {
        LifecycleOp::Status => Decision::NoOp(
            OpReport { service, previous: prev, new_state: prev, success: true },
        ),
        LifecycleOp::Start => match prev {
            ServiceState::NotInstalled => Decision::Refuse,
            ServiceState::InstalledRunning => Decision::NoOp(
                OpReport { service, previous: prev, new_state: prev, success: true },
            ),
            _ => Decision::AttemptStart,
        },
        LifecycleOp::Stop => match prev {
            ServiceState::NotInstalled => Decision::Refuse,
            ServiceState::InstalledStopped => Decision::NoOp(
                OpReport { service, previous: prev, new_state: prev, success: true },
            ),
            _ => Decision::AttemptStop,
        },
        LifecycleOp::Restart => match prev {
            ServiceState::NotInstalled => Decision::Refuse,
            _ => Decision::AttemptStopThenStart,
        },
    }
}

/// Decides one lifecycle operation from the state queried before it.
pub fn decide(op: LifecycleOp, service: ServiceId, prev: ServiceState) -> (d: Decision)
    ensures
        d == spec_decide(op, service, prev),
{
    match op {
        LifecycleOp::Status => Decision::NoOp(
            OpReport { service, previous: prev, new_state: prev, success: true },
        ),
        LifecycleOp::Start => match prev {
            ServiceState::NotInstalled => Decision::Refuse,
            ServiceState::InstalledRunning => Decision::NoOp(
                OpReport { service, previous: prev, new_state: prev, success: true },
            ),
            _ => Decision::AttemptStart,
        },
        LifecycleOp::Stop => match prev {
            ServiceState::NotInstalled => Decision::Refuse,
            ServiceState::InstalledStopped => Decision::NoOp(
                OpReport { service, previous: prev, new_state: prev, success: true },
            ),
            _ => Decision::AttemptStop,
        },
        LifecycleOp::Restart => match prev {
            ServiceState::NotInstalled => Decision::Refuse,
            _ => Decision::AttemptStopThenStart,
        },
    }
}

/// The error a refused operation reports.
pub fn refusal(service: ServiceId) -> (e: KintError)
    ensures
        e matches KintError::NotInstalled { service: s } && s == service,
{
    KintError::NotInstalled { service }
}

/// Report of a stop attempt: success exactly when the re-queried state
/// is stopped; the report carries the actual re-queried state, never an
/// assumed one.
pub open spec fn spec_conclude_stop(
    service: ServiceId,
    prev: ServiceState,
    observed: ServiceState,
) -> OpReport {
    OpReport {
        service,
        previous: prev,
        new_state: observed,
        success: observed == ServiceState::InstalledStopped,
    }
}

/// Report of a start attempt: success exactly when the re-queried state
/// is running.
pub open spec fn spec_conclude_start(
    service: ServiceId,
    prev: ServiceState,
    observed: ServiceState,
) -> OpReport {
    OpReport {
        service,
        previous: prev,
        new_state: observed,
        success: observed == ServiceState::InstalledRunning,
    }
}

/// Concludes a stop attempt from the re-queried state.
pub fn conclude_stop(service: ServiceId, prev: ServiceState, observed: ServiceState) -> (r:
    OpReport)
    ensures
        r == spec_conclude_stop(service, prev, observed),
{
    OpReport {
        service,
        previous: prev,
        new_state: observed,
        success: matches!(observed, ServiceState::InstalledStopped),
    }
}

/// Concludes a start attempt from the re-queried state.
pub fn conclude_start(service: ServiceId, prev: ServiceState, observed: ServiceState) -> (r:
    OpReport)
    ensures
        r == spec_conclude_start(service, prev, observed),
{
    OpReport {
        service,
        previous: prev,
        new_state: observed,
        success: matches!(observed, ServiceState::InstalledRunning),
    }
}

/// What restart does after its stop phase.
#[derive(Debug, Clone, Copy, PartialEq, Eq, Structural)]
pub enum RestartStep {
    /// The stop phase failed: restart fails with this report and the
    /// start phase is never attempted.
    Abort(OpReport),
    /// The stop phase succeeded: go on to the start phase.
    Proceed,
}

/// The restart continuation after the stop phase.
pub open spec fn spec_restart_after_stop(stop_report: OpReport) -> RestartStep {
    if stop_report.success {
        RestartStep::Proceed
    } else {
        RestartStep::Abort(
            OpReport {
                service: stop_report.service,
                previous: stop_report.previous,
                new_state: stop_report.new_state,
                success: false,
            },
        )
    }
}

/// Decides whether restart may enter its start phase. A failed stop
/// phase aborts the whole restart; the aborted report keeps the states
/// the stop attempt actually observed.
pub fn restart_after_stop(stop_report: OpReport) -> (s: RestartStep)
    ensures
        s == spec_restart_after_stop(stop_report),
{
    if stop_report.success {
        RestartStep::Proceed
    } else {
        RestartStep::Abort(
            OpReport {
                service: stop_report.service,
                previous: stop_report.previous,
                new_state: stop_report.new_state,
                success: false,
            },
        )
    }
}

/// The whole restart's report once the start phase concluded: it spans
/// from the state before the stop phase to the state after the start
/// phase.
pub fn restart_after_start(prev: ServiceState, start_report: OpReport) -> (r: OpReport)
    ensures
        r == (OpReport {
            service: start_report.service,
            previous: prev,
            new_state: start_report.new_state,
            success: start_report.success,
        }),
{
    OpReport {
        service: start_report.service,
        previous: prev,
        new_state: start_report.new_state,
        success: start_report.success,
    }
}

/// Lifecycle no-op safety: stop on a service that is already stopped is
/// a success whose previous and new state are both Installed-Stopped,
/// with nothing attempted.
pub proof fn lemma_stop_noop(service: ServiceId)
    ensures
        spec_decide(LifecycleOp::Stop, service, ServiceState::InstalledStopped) == Decision::NoOp(
            OpReport {
                service,
                previous: ServiceState::InstalledStopped,
                new_state: ServiceState::InstalledStopped,
                success: true,
            },
        ),
{
}

/// Restart atomicity: when the stop phase fails, restart aborts — the
/// start phase is never entered — and the reported states are exactly
/// what the stop attempt observed.
pub proof fn lemma_restart_atomicity(service: ServiceId, prev: ServiceState, observed: ServiceState)
    requires
        observed != ServiceState::InstalledStopped,
    ensures
        spec_restart_after_stop(spec_conclude_stop(service, prev, observed))
            == RestartStep::Abort(
            OpReport { service, previous: prev, new_state: observed, success: false },
        ),
{
}

} // verus!
