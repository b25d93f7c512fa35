//! Install and update planning, and classification of the package
//! manager's result.
//!
//! The package manager itself is an external tool the binary invokes;
//! the library decides whether to invoke it, with which manager and
//! package, and classifies its exit status. Install is idempotent:
//! re-running it on an already-installed service skips the invocation
//! and reports `AlreadySatisfied`.

use vstd::prelude::*;
use crate::errors::KintError;
use crate::host::Distro;
use crate::lifecycle::ServiceState;
use crate::registry::{ServiceDescriptor, ServiceId};
use crate::text::assoc;

verus! {

/// Whether the operation installs or updates.
#[derive(Debug, Clone, Copy, PartialEq, Eq, Structural)]
pub enum InstallMode {
    Install,
    Update,
}

/// The classified outcome of one install/update operation.
#[derive(Debug)]
pub enum InstallOutcome {
    /// The package manager ran and succeeded.
    Success,
    /// The service was already installed; nothing was invoked.
    AlreadySatisfied,
    /// The package manager ran and failed.
    Failure { exit_code: i32, detail: String },
}

/// The result of one install/update operation.
#[derive(Debug)]
pub struct InstallResult {
    pub service: ServiceId,
    pub pkg_manager: String,
    pub outcome: InstallOutcome,
}

/// What the installer asks the host to do.
#[derive(Debug)]
pub enum InstallPlan {
    /// Already satisfied: invoke nothing.
    SkipSatisfied,
    /// Invoke the package manager non-interactively for this package.
    Invoke { manager: String, package: String },
}

/// What the external package-manager invocation reported.
#[derive(Debug)]
pub struct Invocation {
    pub exit_code: i32,
    pub stderr: String,
}

/// The shape of one install/update step, for stating laws about it.
#[derive(Debug, Clone, Copy, PartialEq, Eq, Structural)]
pub enum StepKind {
    /// No package mapping for the detected family.
    Unsupported,
    /// Update asked of a service that is not installed.
    NeedsInstalled,
    /// Install asked of an already-installed service: nothing invoked.
    Satisfied,
    /// The package manager was invoked and succeeded.
    Success,
    /// The package manager was invoked and failed.
    Failed,
}

/// How one step classifies, given the package table, the detected
/// family, the mode, the service state and the exit status the
/// invocation would report.
pub open spec fn spec_step_kind(
    packages: Seq<(Seq<char>, Seq<char>)>,
    family: Seq<char>,
    mode: InstallMode,
    state: ServiceState,
    exit_code: int,
) -> StepKind {
    if assoc(packages, family) is None {
        StepKind::Unsupported
    } else if mode == InstallMode::Update && state == ServiceState::NotInstalled {
        StepKind::NeedsInstalled
    } else if mode == InstallMode::Install && state != ServiceState::NotInstalled {
        StepKind::Satisfied
    } else if exit_code == 0 {
        StepKind::Success
    } else {
        StepKind::Failed
    }
}

/// The service state after one step: a successful install of a
/// not-installed service leaves it installed and stopped; everything
/// else leaves the state as it was.
pub open spec fn spec_state_after(state: ServiceState, kind: StepKind) -> ServiceState {
    if kind == StepKind::Success && state == ServiceState::NotInstalled {
        ServiceState::InstalledStopped
    } else {
        state
    }
}

/// Plans one install/update operation: either an error, or what to
/// invoke, or the decision to skip because the service is already
/// satisfied. Returning an error or `SkipSatisfied` invokes nothing, so
/// a failed plan has no side effect on the host.
pub fn plan_install(
    profile: &Distro,
    desc: &ServiceDescriptor,
    mode: InstallMode,
    state: ServiceState,
) -> (r: Result<InstallPlan, KintError>)
    ensures
        match assoc(desc@.packages, profile.name@) {
            None => r matches Err(e) && e matches KintError::UnsupportedDistro { distro_family }
                && distro_family@ == profile.name@,
            Some(p) => if mode == InstallMode::Update && state == ServiceState::NotInstalled {
                r matches Err(e) && e matches KintError::NotInstalled { service } && service
                    == desc.service
            } else if mode == InstallMode::Install && state != ServiceState::NotInstalled {
                r matches Ok(pl) && pl is SkipSatisfied
            } else {
                r matches Ok(pl) && pl matches InstallPlan::Invoke { manager, package } && manager@
                    == profile.pkg@ && package@ == p
            },
        },
{
    let looked_up = desc.package_for(profile.name.as_str());
    match looked_up {
        None => Err(KintError::UnsupportedDistro { distro_family: profile.name.clone() }),
        Some(package) => {
            if matches!(mode, InstallMode::Update) && matches!(state, ServiceState::NotInstalled) {
                Err(KintError::NotInstalled { service: desc.service })
            } else if matches!(mode, InstallMode::Install) && !matches!(
                state,
                ServiceState::NotInstalled,
            ) {
                Ok(InstallPlan::SkipSatisfied)
            } else {
                Ok(InstallPlan::Invoke { manager: profile.pkg.clone(), package })
            }
        },
    }
}

/// Classifies the package manager's exit status: zero is success,
/// anything else a failure carrying the exit code and what the tool
/// wrote to standard error.
pub fn classify_exit(inv: &Invocation) -> (o: InstallOutcome)
    ensures
        inv.exit_code == 0 ==> o is Success,
        inv.exit_code != 0 ==> (o matches InstallOutcome::Failure { exit_code, detail } && exit_code
            == inv.exit_code && detail@ == inv.stderr@),
{
    if inv.exit_code == 0 {
        InstallOutcome::Success
    } else {
        InstallOutcome::Failure { exit_code: inv.exit_code, detail: inv.stderr.clone() }
    }
}

/// One whole install/update step over a modelled host: plans, and where
/// the plan invokes, classifies the supplied invocation result.
/// Returns the operation's result and the service's state after it.
/// The binary, which must run the real invocation in between, uses
/// [`plan_install`] and [`classify_exit`] directly; this composition is
/// what the idempotence law and the tests speak about.
pub fn install_step(
    profile: &Distro,
    desc: &ServiceDescriptor,
    mode: InstallMode,
    state: ServiceState,
    inv: &Invocation,
) -> (r: (Result<InstallResult, KintError>, ServiceState))
    ensures
        ({
            let kind = spec_step_kind(
                desc@.packages,
                profile.name@,
                mode,
                state,
                inv.exit_code as int,
            );
            &&& r.1 == spec_state_after(state, kind)
            &&& match kind {
                StepKind::Unsupported => r.0 matches Err(e) && e matches
                    KintError::UnsupportedDistro { distro_family } && distro_family@
                    == profile.name@,
                StepKind::NeedsInstalled => r.0 matches Err(e) && e matches
                    KintError::NotInstalled { service } && service == desc.service,
                StepKind::Satisfied => r.0 matches Ok(res) && res.service == desc.service
                    && res.pkg_manager@ == profile.pkg@ && res.outcome is AlreadySatisfied,
                StepKind::Success => r.0 matches Ok(res) && res.service == desc.service
                    && res.pkg_manager@ == profile.pkg@ && res.outcome is Success,
                StepKind::Failed => r.0 matches Ok(res) && res.service == desc.service
                    && res.pkg_manager@ == profile.pkg@ && (res.outcome matches
                    InstallOutcome::Failure { exit_code, detail } && exit_code == inv.exit_code
                    && detail@ == inv.stderr@),
            }
        }),
{
    match plan_install(profile, desc, mode, state) {
        Err(e) => (Err(e), state),
        Ok(InstallPlan::SkipSatisfied) => (
            Ok(
                InstallResult {
                    service: desc.service,
                    pkg_manager: profile.pkg.clone(),
                    outcome: InstallOutcome::AlreadySatisfied,
                },
            ),
            state,
        ),
        Ok(InstallPlan::Invoke { manager, package: _ }) => {
            let outcome = classify_exit(inv);
            let new_state = if inv.exit_code == 0 && matches!(state, ServiceState::NotInstalled) {
                ServiceState::InstalledStopped
            } else {
                state
            };
            (Ok(InstallResult { service: desc.service, pkg_manager: manager, outcome }), new_state)
        },
    }
}

/// Install is idempotent: when an install step succeeds, the very next
/// install step of the same service on the same host classifies as
/// `AlreadySatisfied` — never as a failure — whatever a second
/// invocation would have reported.
pub proof fn lemma_install_idempotent(
    packages: Seq<(Seq<char>, Seq<char>)>,
    family: Seq<char>,
    state0: ServiceState,
    exit1: int,
    exit2: int,
)
    requires
        spec_step_kind(packages, family, InstallMode::Install, state0, exit1) == StepKind::Success,
    ensures
        ({
            let state1 = spec_state_after(
                state0,
                spec_step_kind(packages, family, InstallMode::Install, state0, exit1),
            );
            spec_step_kind(packages, family, InstallMode::Install, state1, exit2)
                == StepKind::Satisfied
        }),
{
}

/// The PackageManagerFailure of a failed install outcome, for the
/// command-line boundary; `None` when nothing failed.
pub fn failure_error(res: &InstallResult) -> (e: Option<KintError>)
    ensures
        match res.outcome {
            InstallOutcome::Failure { exit_code, .. } => e matches Some(err) && err matches
                KintError::PackageManagerFailure { exit_code: c, stderr } && c == exit_code
                && stderr@ == spec_failure_detail(&res.outcome),
            _ => e is None,
        },
{
    match &res.outcome {
        InstallOutcome::Failure { exit_code, detail } => Some(
            KintError::PackageManagerFailure { exit_code: *exit_code, stderr: detail.clone() },
        ),
        _ => None,
    }
}

/// The detail text of a failure outcome, empty otherwise.
pub open spec fn spec_failure_detail(o: &InstallOutcome) -> Seq<char> {
    match o {
        InstallOutcome::Failure { detail, .. } => detail@,
        _ => Seq::empty(),
    }
}

} // verus!
