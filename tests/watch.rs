use whois_track::cycle::{
    outcome_of, plan_cycle, requirements, run_cycle, should_notify, CheckOutcome, LookupFailed,
    SnapshotFiles, WatchError,
};
use whois_track::normalize::normalize;

fn ok(s: &str) -> Result<String, LookupFailed> {
    Ok(s.to_string())
}

#[test]
fn normalize_removes_iso_timestamp() {
    let raw = "Registrar: ACME\nUpdated: 2023-01-01T00:00:00Z";
    assert_eq!(normalize(raw), "Registrar: ACME\nUpdated: ");
}

#[test]
fn normalize_without_timestamp_is_identity() {
    let raw = "Domain: example.co\nRegistrar: ACME\nStatus: ok";
    assert_eq!(normalize(raw), raw);
    assert_eq!(normalize(""), "");
}

#[test]
fn normalize_is_idempotent_on_sample() {
    let raw = "Created: 2001-02-03T04:05:06Z\nExpiry: 2030-12-31T23:59:59Z\nName: x";
    let once = normalize(raw);
    assert_eq!(once, "Created: \nExpiry: \nName: x");
    assert_eq!(normalize(&once), once);
}

#[test]
fn normalize_single_match_shrinks_by_its_span() {
    let prefix = "Registrar: ACME\nUpdated: ";
    let stamp = "2023-01-01T00:00:00Z";
    let suffix = "\nStatus: active";
    let raw = format!("{}{}{}", prefix, stamp, suffix);
    let out = normalize(&raw);
    assert_eq!(out.len(), raw.len() - stamp.len());
    assert_eq!(out, format!("{}{}", prefix, suffix));
}

#[test]
fn normalize_match_runs_to_last_z_of_line() {
    assert_eq!(normalize("a 1-2-3 Z b Z c\nZ"), "a  c\nZ");
    assert_eq!(normalize("1-2 Z"), "1-2 Z");
    assert_eq!(normalize("--\nZ"), "--\nZ");
}

#[test]
fn first_cycle_scenario_is_not_changed() {
    let mut files = SnapshotFiles::new();
    let r = run_cycle(&mut files, ok("Registrar: ACME\nUpdated: 2023-01-01T00:00:00Z"));
    assert_eq!(r, Ok(CheckOutcome::ComparisonFailed));
    assert!(!should_notify(r.unwrap()));
    assert_eq!(files.current.as_deref(), Some("Registrar: ACME\nUpdated: "));
    assert_eq!(files.previous, None);
}

#[test]
fn same_content_twice_is_unchanged() {
    let mut files = SnapshotFiles::new();
    let _ = run_cycle(&mut files, ok("Registrar: ACME\nUpdated: 2023-01-01T00:00:00Z"));
    let r = run_cycle(&mut files, ok("Registrar: ACME\nUpdated: 2024-06-30T12:00:00Z"));
    assert_eq!(r, Ok(CheckOutcome::Unchanged));
    assert!(!should_notify(CheckOutcome::Unchanged));
}

#[test]
fn changed_content_alerts_once_and_rotates() {
    let mut files = SnapshotFiles::new();
    let _ = run_cycle(&mut files, ok("Registrar: ACME"));
    let r = run_cycle(&mut files, ok("Registrar: OTHER"));
    assert_eq!(r, Ok(CheckOutcome::Changed));
    let alerts = [r.unwrap()].iter().filter(|o| should_notify(**o)).count();
    assert_eq!(alerts, 1);
    assert_eq!(files.previous.as_deref(), Some("Registrar: ACME"));
    assert_eq!(files.current.as_deref(), Some("Registrar: OTHER"));
}

#[test]
fn rotation_keeps_last_two_of_many() {
    let mut files = SnapshotFiles::new();
    for raw in ["one", "two", "three 2020-01-01Z", "four"] {
        assert!(run_cycle(&mut files, ok(raw)).is_ok());
    }
    assert_eq!(files.current.as_deref(), Some("four"));
    assert_eq!(files.previous.as_deref(), Some("three "));
}

#[test]
fn lookup_failure_leaves_files_untouched() {
    let mut files = SnapshotFiles::new();
    let _ = run_cycle(&mut files, ok("first"));
    let _ = run_cycle(&mut files, ok("second"));
    let r = run_cycle(&mut files, Err(LookupFailed));
    assert_eq!(r, Err(WatchError::LookupError));
    assert_eq!(files.previous.as_deref(), Some("first"));
    assert_eq!(files.current.as_deref(), Some("second"));
}

#[test]
fn plan_follows_existing_files() {
    let plan = plan_cycle(ok("x 1999-09-09T09:09:09Z"), true, false).unwrap();
    assert!(plan.rename_current);
    assert!(!plan.remove_previous);
    assert_eq!(plan.text, "x ");
    let plan = plan_cycle(ok("y"), false, true).unwrap();
    assert!(!plan.rename_current);
    assert!(plan.remove_previous);
    assert!(matches!(plan_cycle(Err(LookupFailed), true, true), Err(WatchError::LookupError)));
}

#[test]
fn previous_without_current_is_removed() {
    let mut files = SnapshotFiles { current: None, previous: Some("stale".to_string()) };
    let r = run_cycle(&mut files, ok("fresh"));
    assert_eq!(r, Ok(CheckOutcome::ComparisonFailed));
    assert_eq!(files.previous, None);
    assert_eq!(files.current.as_deref(), Some("fresh"));
}

#[test]
fn outcomes_from_comparisons() {
    assert_eq!(outcome_of(Some(true)), CheckOutcome::Unchanged);
    assert_eq!(outcome_of(Some(false)), CheckOutcome::Changed);
    assert_eq!(outcome_of(None), CheckOutcome::ComparisonFailed);
    assert!(should_notify(CheckOutcome::Changed));
    assert!(!should_notify(CheckOutcome::ComparisonFailed));
}

#[test]
fn startup_requirements() {
    assert_eq!(requirements(true), Ok(()));
    assert_eq!(requirements(false), Err(WatchError::StartupConfigMissing));
}
