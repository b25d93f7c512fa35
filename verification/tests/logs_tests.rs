use kintcli::errors::KintError;
use kintcli::logs::{aggregate_bounded, logs_mode, merge, tail, LogLine, LogMode};
use kintcli::registry::ServiceId;

fn line(service: ServiceId, arrival: u64, text: &str) -> LogLine {
    LogLine { service, arrival, text: text.to_string() }
}

#[test]
fn small_aggregate_interleaves_by_arrival() {
    let bitcoin = vec![
        line(ServiceId::Bitcoin, 1, "block 100"),
        line(ServiceId::Bitcoin, 3, "block 101"),
    ];
    let vault = vec![
        line(ServiceId::Vault, 2, "issue request"),
        line(ServiceId::Vault, 4, "redeem request"),
    ];
    let out = aggregate_bounded(&bitcoin, &vault, 1000);
    let arrivals: Vec<u64> = out.iter().map(|l| l.arrival).collect();
    assert_eq!(arrivals, vec![1, 2, 3, 4]);
    let tags: Vec<ServiceId> = out.iter().map(|l| l.service).collect();
    assert_eq!(
        tags,
        vec![ServiceId::Bitcoin, ServiceId::Vault, ServiceId::Bitcoin, ServiceId::Vault]
    );
    assert_eq!(out[0].text, "block 100");
    assert_eq!(out[1].text, "issue request");
}

#[test]
fn bounded_aggregate_keeps_last_thousand_per_service_and_restarts() {
    // 1100 lines per service, arrivals interleaved: bitcoin even, vault odd
    let bitcoin: Vec<LogLine> =
        (0..1100).map(|i| line(ServiceId::Bitcoin, 2 * i, "b")).collect();
    let vault: Vec<LogLine> =
        (0..1100).map(|i| line(ServiceId::Vault, 2 * i + 1, "v")).collect();

    let out = aggregate_bounded(&bitcoin, &vault, 1000);
    assert_eq!(out.len(), 2000);
    // the first 100 lines of each source fell off
    assert_eq!(out[0].arrival, 200);
    assert_eq!(out[1999].arrival, 2199);
    for w in out.windows(2) {
        assert!(w[0].arrival <= w[1].arrival);
    }
    // the sequence terminated and is re-invocable with identical results
    let again = aggregate_bounded(&bitcoin, &vault, 1000);
    assert_eq!(out, again);
}

#[test]
fn tail_keeps_short_logs_whole() {
    let v = vec![line(ServiceId::Vault, 7, "only")];
    assert_eq!(tail(&v, 1000), v);
    assert_eq!(tail(&v, 0), Vec::<LogLine>::new());
}

#[test]
fn merge_handles_empty_sides() {
    let v = vec![line(ServiceId::Vault, 1, "a"), line(ServiceId::Vault, 2, "b")];
    assert_eq!(merge(&Vec::new(), &v), v);
    assert_eq!(merge(&v, &Vec::new()), v);
}

#[test]
fn merge_ties_prefer_first_log() {
    let a = vec![line(ServiceId::Bitcoin, 5, "first")];
    let b = vec![line(ServiceId::Vault, 5, "second")];
    let out = merge(&a, &b);
    assert_eq!(out[0].service, ServiceId::Bitcoin);
    assert_eq!(out[1].service, ServiceId::Vault);
}

#[test]
fn logs_argument_parses_to_mode() {
    assert_eq!(logs_mode(None).unwrap(), LogMode::Bounded(1000));
    assert_eq!(logs_mode(Some("now")).unwrap(), LogMode::Follow);
    assert_eq!(logs_mode(Some("1000")).unwrap(), LogMode::Bounded(1000));
    assert_eq!(logs_mode(Some("50")).unwrap(), LogMode::Bounded(50));
}

#[test]
fn bad_logs_argument_is_rejected() {
    match logs_mode(Some("yesterday")) {
        Err(KintError::InvalidOptionValue { option, reason }) => {
            assert_eq!(option, "logs");
            assert_eq!(reason, "expected now or a line count");
        }
        other => panic!("expected InvalidOptionValue, got {:?}", other),
    }
    assert!(logs_mode(Some("99999")).is_err());
}
