//! The error taxonomy of the orchestration core. Every failure that
//! reaches the command-line boundary is one of these, rendered as a
//! one-line message with an error-kind-specific, non-zero exit code.

use vstd::prelude::*;
use crate::registry::ServiceId;

verus! {

/// Every classified failure of the core.
#[derive(Debug)]
pub enum KintError {
    /// The detected distro family has no package mapping for the service.
    UnsupportedDistro { distro_family: String },
    /// A required option is still unset and no interactive input is
    /// available to supply it.
    IncompleteConfiguration { option: String },
    /// An option's resolved value does not fit its schema type.
    InvalidOptionValue { option: String, reason: String },
    /// The operation needs the service installed, and it is not.
    NotInstalled { service: ServiceId },
    /// The package manager ran and failed.
    PackageManagerFailure { exit_code: i32, stderr: String },
    /// A start/stop/restart attempt did not bring the service to the
    /// requested state.
    ProcessControlFailure { operation: String, detail: String },
}

/// The process exit code of each error kind.
pub open spec fn spec_exit_code(e: &KintError) -> i32 {
    match e {
        KintError::UnsupportedDistro { .. } => 2,
        KintError::IncompleteConfiguration { .. } => 3,
        KintError::InvalidOptionValue { .. } => 4,
        KintError::NotInstalled { .. } => 5,
        KintError::PackageManagerFailure { .. } => 6,
        KintError::ProcessControlFailure { .. } => 7,
    }
}

/// The user-facing name of a service.
pub open spec fn spec_service_label(id: ServiceId) -> Seq<char> {
    match id {
        ServiceId::Bitcoin => "bitcoin"@,
        ServiceId::Vault => "vault"@,
    }
}

/// The one-line user-facing message of each error.
pub open spec fn spec_message(e: &KintError) -> Seq<char> {
    match e {
        KintError::UnsupportedDistro { distro_family } => "unsupported distro: "@
            + distro_family@,
        KintError::IncompleteConfiguration { option } =>
        "incomplete configuration: required option not set: "@ + option@,
        KintError::InvalidOptionValue { option, reason } => "invalid value for option "@
            + option@ + ": "@ + reason@,
        KintError::NotInstalled { service } => "service is not installed: "@
            + spec_service_label(*service),
        KintError::PackageManagerFailure { exit_code, stderr } => "package manager failed: "@
            + stderr@,
        KintError::ProcessControlFailure { operation, detail } =>
        "process control failed during "@ + operation@ + ": "@ + detail@,
    }
}

/// The user-facing name of a service.
pub fn service_label(id: ServiceId) -> (s: String)
    ensures
        s@ == spec_service_label(id),
{
    match id {
        ServiceId::Bitcoin => "bitcoin".to_owned(),
        ServiceId::Vault => "vault".to_owned(),
    }
}

impl KintError {
    /// The non-zero, error-kind-specific process exit code.
    pub fn exit_code(&self) -> (c: i32)
        ensures
            c == spec_exit_code(self),
            c != 0,
    {
        match self {
            KintError::UnsupportedDistro { .. } => 2,
            KintError::IncompleteConfiguration { .. } => 3,
            KintError::InvalidOptionValue { .. } => 4,
            KintError::NotInstalled { .. } => 5,
            KintError::PackageManagerFailure { .. } => 6,
            KintError::ProcessControlFailure { .. } => 7,
        }
    }

    /// The one-line user-facing message.
    pub fn message(&self) -> (s: String)
        ensures
            s@ == spec_message(self),
    {
        match self {
            KintError::UnsupportedDistro { distro_family } => "unsupported distro: "
                .to_owned()
                .concat(distro_family.as_str()),
            KintError::IncompleteConfiguration { option } =>
                "incomplete configuration: required option not set: "
                .to_owned()
                .concat(option.as_str()),
            KintError::InvalidOptionValue { option, reason } => "invalid value for option "
                .to_owned()
                .concat(option.as_str())
                .concat(": ")
                .concat(reason.as_str()),
            KintError::NotInstalled { service } => "service is not installed: "
                .to_owned()
                .concat(service_label(*service).as_str()),
            KintError::PackageManagerFailure { exit_code: _, stderr } =>
                "package manager failed: "
                .to_owned()
                .concat(stderr.as_str()),
            KintError::ProcessControlFailure { operation, detail } =>
                "process control failed during "
                .to_owned()
                .concat(operation.as_str())
                .concat(": ")
                .concat(detail.as_str()),
        }
    }
}

} // verus!
