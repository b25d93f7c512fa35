use kintcli::dispatch::{scope_for, service_from_arg, Command};
use kintcli::errors::KintError;
use kintcli::host::Distro;
use kintcli::install::{
    classify_exit, failure_error, install_step, plan_install, InstallMode, InstallOutcome,
    InstallPlan, Invocation,
};
use kintcli::lifecycle::{
    conclude_start, conclude_stop, decide, restart_after_start, restart_after_stop, Decision,
    LifecycleOp, OpReport, RestartStep, ServiceState,
};
use kintcli::registry::{describe, ServiceId};

fn debian_host() -> Distro {
    Distro { name: "debian".to_string(), pkg: "apt-get".to_string() }
}

fn ok_run() -> Invocation {
    Invocation { exit_code: 0, stderr: String::new() }
}

#[test]
fn install_twice_is_success_then_already_satisfied() {
    let profile = debian_host();
    let desc = describe(ServiceId::Bitcoin);
    let state0 = ServiceState::NotInstalled;

    let (r1, state1) = install_step(&profile, &desc, InstallMode::Install, state0, &ok_run());
    let r1 = r1.expect("first install succeeds");
    assert!(matches!(r1.outcome, InstallOutcome::Success));
    assert_eq!(r1.pkg_manager, "apt-get");
    assert_eq!(state1, ServiceState::InstalledStopped);

    // the second run must skip the invocation entirely: even a would-be
    // failing invocation cannot turn it into a Failure
    let failing = Invocation { exit_code: 1, stderr: "boom".to_string() };
    let (r2, state2) = install_step(&profile, &desc, InstallMode::Install, state1, &failing);
    let r2 = r2.expect("second install succeeds");
    assert!(matches!(r2.outcome, InstallOutcome::AlreadySatisfied));
    assert_eq!(state2, state1);
}

#[test]
fn unmapped_family_fails_unsupported_with_no_plan() {
    // a host whose detection degraded: family "Unknown", manager "Unknown"
    let profile = Distro { name: "Unknown".to_string(), pkg: "Unknown".to_string() };
    let desc = describe(ServiceId::Bitcoin);
    match plan_install(&profile, &desc, InstallMode::Install, ServiceState::NotInstalled) {
        Err(KintError::UnsupportedDistro { distro_family }) => {
            assert_eq!(distro_family, "Unknown");
        }
        other => panic!("expected UnsupportedDistro, got {:?}", other),
    }
    // nothing was handed out to invoke, so no partial side effect is possible
    let (r, state) = install_step(
        &profile,
        &desc,
        InstallMode::Install,
        ServiceState::NotInstalled,
        &ok_run(),
    );
    assert!(matches!(r, Err(KintError::UnsupportedDistro { .. })));
    assert_eq!(state, ServiceState::NotInstalled);
}

#[test]
fn update_requires_installed_service() {
    let profile = debian_host();
    let desc = describe(ServiceId::Vault);
    match plan_install(&profile, &desc, InstallMode::Update, ServiceState::NotInstalled) {
        Err(KintError::NotInstalled { service }) => assert_eq!(service, ServiceId::Vault),
        other => panic!("expected NotInstalled, got {:?}", other),
    }
    // an installed service updates through a real invocation
    match plan_install(&profile, &desc, InstallMode::Update, ServiceState::InstalledRunning) {
        Ok(InstallPlan::Invoke { manager, package }) => {
            assert_eq!(manager, "apt-get");
            assert_eq!(package, "interbtc-vault");
        }
        other => panic!("expected Invoke, got {:?}", other),
    }
}

#[test]
fn failed_invocation_classifies_with_exit_and_stderr() {
    let inv = Invocation { exit_code: 100, stderr: "E: unable to locate package".to_string() };
    match classify_exit(&inv) {
        InstallOutcome::Failure { exit_code, detail } => {
            assert_eq!(exit_code, 100);
            assert_eq!(detail, "E: unable to locate package");
        }
        other => panic!("expected Failure, got {:?}", other),
    }
}

#[test]
fn failure_outcome_maps_to_package_manager_failure() {
    let profile = debian_host();
    let desc = describe(ServiceId::Bitcoin);
    let inv = Invocation { exit_code: 2, stderr: "dpkg was interrupted".to_string() };
    let (r, state) = install_step(&profile, &desc, InstallMode::Install, ServiceState::NotInstalled, &inv);
    let res = r.expect("classified, not an error");
    assert_eq!(state, ServiceState::NotInstalled);
    match failure_error(&res) {
        Some(KintError::PackageManagerFailure { exit_code, stderr }) => {
            assert_eq!(exit_code, 2);
            assert_eq!(stderr, "dpkg was interrupted");
        }
        other => panic!("expected PackageManagerFailure, got {:?}", other),
    }
}

#[test]
fn stop_on_stopped_service_is_a_noop_success() {
    let d = decide(LifecycleOp::Stop, ServiceId::Vault, ServiceState::InstalledStopped);
    match d {
        Decision::NoOp(report) => {
            assert!(report.success);
            assert_eq!(report.previous, ServiceState::InstalledStopped);
            assert_eq!(report.new_state, ServiceState::InstalledStopped);
        }
        other => panic!("expected NoOp, got {:?}", other),
    }
}

#[test]
fn start_on_running_service_is_a_noop_success() {
    let d = decide(LifecycleOp::Start, ServiceId::Bitcoin, ServiceState::InstalledRunning);
    assert!(matches!(d, Decision::NoOp(r) if r.success && r.new_state == ServiceState::InstalledRunning));
}

#[test]
fn lifecycle_refuses_service_not_installed() {
    for op in [LifecycleOp::Start, LifecycleOp::Stop, LifecycleOp::Restart] {
        let d = decide(op, ServiceId::Vault, ServiceState::NotInstalled);
        assert_eq!(d, Decision::Refuse);
    }
    // status always succeeds, even over a not-installed service
    let d = decide(LifecycleOp::Status, ServiceId::Vault, ServiceState::NotInstalled);
    assert!(matches!(d, Decision::NoOp(r) if r.success && r.new_state == ServiceState::NotInstalled));
}

#[test]
fn restart_with_failed_stop_never_starts() {
    // stop attempted, but the process was still running when re-queried
    let stop_report = conclude_stop(
        ServiceId::Vault,
        ServiceState::InstalledRunning,
        ServiceState::InstalledRunning,
    );
    assert!(!stop_report.success);
    match restart_after_stop(stop_report) {
        RestartStep::Abort(report) => {
            assert!(!report.success);
            // the report reflects only what the stop attempt observed
            assert_eq!(report.previous, ServiceState::InstalledRunning);
            assert_eq!(report.new_state, ServiceState::InstalledRunning);
        }
        RestartStep::Proceed => panic!("restart must abort when the stop phase fails"),
    }
}

#[test]
fn restart_with_successful_phases_reports_full_span() {
    let prev = ServiceState::InstalledRunning;
    let stop_report = conclude_stop(ServiceId::Vault, prev, ServiceState::InstalledStopped);
    assert!(stop_report.success);
    assert_eq!(restart_after_stop(stop_report), RestartStep::Proceed);
    let start_report = conclude_start(
        ServiceId::Vault,
        ServiceState::InstalledStopped,
        ServiceState::InstalledRunning,
    );
    let whole = restart_after_start(prev, start_report);
    assert!(whole.success);
    assert_eq!(whole.previous, ServiceState::InstalledRunning);
    assert_eq!(whole.new_state, ServiceState::InstalledRunning);
}

#[test]
fn bare_stop_stops_only_vault() {
    let scope = scope_for(Command::Stop, None);
    assert_eq!(scope, vec![ServiceId::Vault]);

    let mut bitcoin = ServiceState::InstalledRunning;
    let mut vault = ServiceState::InstalledRunning;
    for id in scope {
        let prev = match id {
            ServiceId::Bitcoin => bitcoin,
            ServiceId::Vault => vault,
        };
        let report: OpReport = match decide(LifecycleOp::Stop, id, prev) {
            Decision::NoOp(r) => r,
            Decision::AttemptStop => conclude_stop(id, prev, ServiceState::InstalledStopped),
            other => panic!("unexpected decision {:?}", other),
        };
        match id {
            ServiceId::Bitcoin => bitcoin = report.new_state,
            ServiceId::Vault => vault = report.new_state,
        }
        assert!(report.success);
    }
    assert_eq!(vault, ServiceState::InstalledStopped);
    // bitcoin was out of scope and its state never changed
    assert_eq!(bitcoin, ServiceState::InstalledRunning);
}

#[test]
fn default_scope_table() {
    assert_eq!(scope_for(Command::Start, None), vec![ServiceId::Bitcoin, ServiceId::Vault]);
    assert_eq!(scope_for(Command::Logs, None), vec![ServiceId::Bitcoin, ServiceId::Vault]);
    assert_eq!(scope_for(Command::Stop, None), vec![ServiceId::Vault]);
    assert_eq!(scope_for(Command::Restart, None), vec![ServiceId::Vault]);
    assert_eq!(scope_for(Command::Status, None), vec![ServiceId::Vault]);
    assert_eq!(scope_for(Command::Install, None), Vec::<ServiceId>::new());
    assert_eq!(scope_for(Command::Stop, Some(ServiceId::Bitcoin)), vec![ServiceId::Bitcoin]);
}

#[test]
fn service_argument_parsing() {
    assert_eq!(service_from_arg("bitcoin"), Some(ServiceId::Bitcoin));
    assert_eq!(service_from_arg("vault"), Some(ServiceId::Vault));
    assert_eq!(service_from_arg("subkey"), None);
    assert_eq!(service_from_arg(""), None);
}

#[test]
fn error_messages_and_exit_codes() {
    let e = KintError::UnsupportedDistro { distro_family: "Unknown".to_string() };
    assert_eq!(e.message(), "unsupported distro: Unknown");
    assert_eq!(e.exit_code(), 2);

    let e = KintError::IncompleteConfiguration { option: "vault_password".to_string() };
    assert_eq!(e.message(), "incomplete configuration: required option not set: vault_password");

    let e = KintError::InvalidOptionValue {
        option: "vault_port".to_string(),
        reason: "not a valid port number".to_string(),
    };
    assert_eq!(e.message(), "invalid value for option vault_port: not a valid port number");

    let e = KintError::NotInstalled { service: ServiceId::Vault };
    assert_eq!(e.message(), "service is not installed: vault");

    let e = KintError::PackageManagerFailure { exit_code: 100, stderr: "boom".to_string() };
    assert_eq!(e.message(), "package manager failed: boom");

    let e = KintError::ProcessControlFailure {
        operation: "stop".to_string(),
        detail: "unit still active".to_string(),
    };
    assert_eq!(e.message(), "process control failed during stop: unit still active");

    let codes = vec![
        KintError::UnsupportedDistro { distro_family: String::new() }.exit_code(),
        KintError::IncompleteConfiguration { option: String::new() }.exit_code(),
        KintError::InvalidOptionValue { option: String::new(), reason: String::new() }.exit_code(),
        KintError::NotInstalled { service: ServiceId::Bitcoin }.exit_code(),
        KintError::PackageManagerFailure { exit_code: 0, stderr: String::new() }.exit_code(),
        KintError::ProcessControlFailure { operation: String::new(), detail: String::new() }
            .exit_code(),
    ];
    for (i, a) in codes.iter().enumerate() {
        assert_ne!(*a, 0);
        for b in codes.iter().skip(i + 1) {
            assert_ne!(*a, *b);
        }
    }
}
