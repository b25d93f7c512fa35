//! Host capability detection: distro family and package manager.
//!
//! The probes of the running host are trusted wrappers around outside
//! crates; everything that decides between their outcomes is verified.
//! Detection never fails: inconclusive probes degrade to the sentinel
//! family `"Unknown"`, and the package-manager resolution is total.

use vstd::prelude::*;
use crate::text::str_eq;

verus! {

/// The host profile: distro family name and package manager name.
#[derive(Debug)]
pub struct Distro {
    pub name: String,
    pub pkg: String,
}

/// Outcome of the primary (build-variant) probe, as a tag rather than an
/// error-message string.
#[derive(Debug)]
pub enum VariantProbe {
    /// The probe recognised the host's build variant.
    Detected { family: String },
    /// The probe ran but no known variant matched; a broader
    /// OS-identification probe may still help.
    NoVariantMatched,
    /// The probe failed outright; no further probing is useful.
    ProbeFailed,
}

/// The package manager of each known distro family; an unmapped family
/// resolves to itself (explicit degrade-gracefully policy).
pub open spec fn spec_pkg_manager(f: Seq<char>) -> Seq<char> {
    if f == "debian"@ {
        "apt-get"@
    } else if f == "arch"@ {
        "pacman"@
    } else if f == "redhat"@ {
        "yum"@
    } else {
        f
    }
}

/// Total package-manager resolution: debian, arch and redhat map to
/// their managers, anything else maps to itself.
pub fn resolve_pkg_manager(family: &str) -> (r: String)
    ensures
        r@ == spec_pkg_manager(family@),
{
    if str_eq(family, "debian") {
        "apt-get".to_owned()
    } else if str_eq(family, "arch") {
        "pacman".to_owned()
    } else if str_eq(family, "redhat") {
        "yum".to_owned()
    } else {
        family.to_owned()
    }
}

/// Package-manager resolution is total: it always answers, a non-empty
/// input yields a non-empty manager name, and an unmapped family comes
/// back unchanged.
pub proof fn lemma_pkg_manager_total(f: Seq<char>)
    ensures
        f.len() > 0 ==> spec_pkg_manager(f).len() > 0,
        !(f == "debian"@ || f == "arch"@ || f == "redhat"@) ==> spec_pkg_manager(f) == f,
{
    reveal_strlit("apt-get");
    reveal_strlit("pacman");
    reveal_strlit("yum");
}

/// The family that the detection chain reports, given the platform test
/// and the probe outcomes. Off the supported platform every probe is
/// ignored and the sentinel is reported.
pub open spec fn spec_family_from_probes(
    on_linux: bool,
    primary: &VariantProbe,
    secondary: &Option<String>,
) -> Seq<char> {
    if !on_linux {
        "Unknown"@
    } else {
        match primary {
            VariantProbe::Detected { family } => family@,
            VariantProbe::NoVariantMatched => match secondary {
                Some(s) => s@,
                None => "Unknown"@,
            },
            VariantProbe::ProbeFailed => "Unknown"@,
        }
    }
}

/// Builds the host profile from the probe outcomes: the family follows
/// the fallback chain, and the package manager is resolved from that
/// family.
pub fn profile_from_probes(
    on_linux: bool,
    primary: VariantProbe,
    secondary: Option<String>,
) -> (p: Distro)
    ensures
        p.name@ == spec_family_from_probes(on_linux, &primary, &secondary),
        p.pkg@ == spec_pkg_manager(p.name@),
{
    let name: String = if !on_linux {
        "Unknown".to_owned()
    } else {
        match primary {
            VariantProbe::Detected { family } => family,
            VariantProbe::NoVariantMatched => match secondary {
                Some(s) => s,
                None => "Unknown".to_owned(),
            },
            VariantProbe::ProbeFailed => "Unknown".to_owned(),
        }
    };
    let pkg = resolve_pkg_manager(name.as_str());
    Distro { name, pkg }
}

/// On a host that is not Linux-flagged, the reported family is the
/// sentinel and no probe outcome can change the profile.
pub proof fn lemma_detect_ignores_probes_off_linux(
    p1: &VariantProbe,
    p2: &VariantProbe,
    s1: &Option<String>,
    s2: &Option<String>,
)
    ensures
        spec_family_from_probes(false, p1, s1) == "Unknown"@,
        spec_family_from_probes(false, p1, s1) == spec_family_from_probes(false, p2, s2),
{
}

/// Relies on sp_variant::detect: it either returns a variant out of the
/// crate's built-in table, in which every entry's family is "debian" or
/// "redhat", or an error, of which only `UnknownVariant` means "no
/// variant matched, the host may still be identifiable".
#[verifier::external_body]
fn probe_build_variant() -> (r: VariantProbe)
    ensures
        r matches VariantProbe::Detected { family } ==> family@ == "debian"@ || family@
            == "redhat"@,
{
    match sp_variant::detect() {
        Ok(v) => VariantProbe::Detected { family: v.family },
        Err(sp_variant::VariantError::UnknownVariant) => VariantProbe::NoVariantMatched,
        Err(_) => VariantProbe::ProbeFailed,
    }
}

/// Relies on os_info::get: it reports the running operating system's
/// type. The answer depends on the machine, so nothing is promised of
/// the returned name.
#[verifier::external_body]
fn probe_os_type() -> (r: String) {
    os_info::get().os_type().to_string()
}

/// Detects the host profile. Never fails: inconclusive detection yields
/// the family "Unknown". The secondary probe runs only when the primary
/// probe reports that no variant matched, and no probe runs at all off
/// the supported platform.
///
/// `on_linux` is the platform test's verdict; the binary passes its own
/// compile-time target flag, which the library cannot read itself.
pub fn detect(on_linux: bool) -> (p: Distro)
    ensures
        p.pkg@ == spec_pkg_manager(p.name@),
        !on_linux ==> p.name@ == "Unknown"@,
{
    if !on_linux {
        return profile_from_probes(false, VariantProbe::ProbeFailed, None);
    }
    let primary = probe_build_variant();
    let secondary: Option<String> = if matches!(primary, VariantProbe::NoVariantMatched) {
        Some(probe_os_type())
    } else {
        None
    };
    profile_from_probes(true, primary, secondary)
}

} // verus!
