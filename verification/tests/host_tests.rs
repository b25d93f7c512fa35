use kintcli::host::{detect, profile_from_probes, resolve_pkg_manager, VariantProbe};
use kintcli::text::{parse_bounded_decimal, str_eq};

#[test]
fn off_linux_profile_is_unknown() {
    let p = profile_from_probes(false, VariantProbe::ProbeFailed, None);
    assert_eq!(p.name, "Unknown");
    assert_eq!(p.pkg, "Unknown");
}

#[test]
fn off_linux_profile_ignores_probe_outcomes() {
    let a = profile_from_probes(
        false,
        VariantProbe::Detected { family: "debian".to_string() },
        None,
    );
    let b = profile_from_probes(
        false,
        VariantProbe::NoVariantMatched,
        Some("Arch Linux".to_string()),
    );
    assert_eq!(a.name, "Unknown");
    assert_eq!(b.name, "Unknown");
    assert_eq!(a.pkg, b.pkg);
}

#[test]
fn detected_family_resolves_manager() {
    let p = profile_from_probes(
        true,
        VariantProbe::Detected { family: "debian".to_string() },
        None,
    );
    assert_eq!(p.name, "debian");
    assert_eq!(p.pkg, "apt-get");
}

#[test]
fn secondary_probe_used_when_no_variant_matched() {
    let p = profile_from_probes(
        true,
        VariantProbe::NoVariantMatched,
        Some("Arch Linux".to_string()),
    );
    assert_eq!(p.name, "Arch Linux");
    // unmapped family: the manager name equals the family, unchanged
    assert_eq!(p.pkg, "Arch Linux");
}

#[test]
fn failed_primary_probe_degrades_to_unknown() {
    let p = profile_from_probes(true, VariantProbe::ProbeFailed, None);
    assert_eq!(p.name, "Unknown");
    assert_eq!(p.pkg, "Unknown");
}

#[test]
fn pkg_manager_table() {
    assert_eq!(resolve_pkg_manager("debian"), "apt-get");
    assert_eq!(resolve_pkg_manager("arch"), "pacman");
    assert_eq!(resolve_pkg_manager("redhat"), "yum");
}

#[test]
fn pkg_manager_unmapped_family_maps_to_itself() {
    assert_eq!(resolve_pkg_manager("suse"), "suse");
    assert_eq!(resolve_pkg_manager("Unknown"), "Unknown");
}

#[test]
fn detect_profile_is_internally_consistent() {
    // whatever this host is, the manager always matches the family
    let p = detect(true);
    assert_eq!(p.pkg, resolve_pkg_manager(&p.name));
    let q = detect(false);
    assert_eq!(q.name, "Unknown");
    assert_eq!(q.pkg, "Unknown");
}

#[test]
fn str_eq_compares_contents() {
    assert!(str_eq("abc", "abc"));
    assert!(!str_eq("abc", "abd"));
    assert!(str_eq("", ""));
}

#[test]
fn parse_bounded_decimal_accepts_ports() {
    assert_eq!(parse_bounded_decimal("0"), Some(0));
    assert_eq!(parse_bounded_decimal("1000"), Some(1000));
    assert_eq!(parse_bounded_decimal("65535"), Some(65535));
    assert_eq!(parse_bounded_decimal("08080"), Some(8080));
}

#[test]
fn parse_bounded_decimal_rejects_junk() {
    assert_eq!(parse_bounded_decimal(""), None);
    assert_eq!(parse_bounded_decimal("65536"), None);
    assert_eq!(parse_bounded_decimal("12a"), None);
    assert_eq!(parse_bounded_decimal("-1"), None);
    assert_eq!(parse_bounded_decimal("999999999999999999999"), None);
}
