use wallmeter::applier::{apply_outcome, reload_arguments, ApplyOutcome};
use wallmeter::identity::{resolve, ResolveError};
use wallmeter::watcher::{ChangeWatcher, WatchAction};

#[test]
fn starts_with_nothing_applied() {
    assert_eq!(ChangeWatcher::new().last_applied(), "");
}

#[test]
fn new_identifier_is_looked_up() {
    let w = ChangeWatcher::new();
    match w.on_resolved(Ok("42".to_string())) {
        WatchAction::LookUp(id) => assert_eq!(id, "42"),
        _ => panic!("expected a lookup"),
    }
}

#[test]
fn same_identifier_twice_writes_once() {
    let mut w = ChangeWatcher::new();
    let layout = b"[Rainmeter]".to_vec();
    let mut writes = 0;
    for _ in 0..2 {
        match w.on_resolved(Ok("778899012".to_string())) {
            WatchAction::LookUp(id) => match w.on_lookup(id, Some(layout.clone())) {
                WatchAction::Apply(id, bytes) => {
                    assert_eq!(bytes, layout);
                    writes += 1;
                    w.on_applied(id, apply_outcome(true, true));
                }
                _ => panic!("expected an apply"),
            },
            WatchAction::Unchanged => {}
            _ => panic!("unexpected action"),
        }
    }
    assert_eq!(writes, 1);
    assert_eq!(w.last_applied(), "778899012");
}

#[test]
fn unresolvable_identifier_keeps_last_applied() {
    let mut w = ChangeWatcher::new();
    w.on_applied("111".to_string(), ApplyOutcome::Applied);
    let doc = "{\"alice\":{\"general\":{\"wallpaperconfig\":{\"selectedwallpapers\":{\"Monitor0\":{\"file\":\"D:/other/778899012/scene.json\"}}}}}}";
    let resolved = resolve(doc, "alice");
    assert_eq!(resolved, Err(ResolveError::IdentifierNotResolvable));
    match w.on_resolved(resolved) {
        WatchAction::Report(e) => assert_eq!(e, ResolveError::IdentifierNotResolvable),
        _ => panic!("expected a report"),
    }
    assert_eq!(w.last_applied(), "111");
}

#[test]
fn missing_profile_is_reported_and_not_applied() {
    let w = ChangeWatcher::new();
    let id = match w.on_resolved(Ok("778899012".to_string())) {
        WatchAction::LookUp(id) => id,
        _ => panic!("expected a lookup"),
    };
    match w.on_lookup(id, None) {
        WatchAction::NoProfile(id) => assert_eq!(id, "778899012"),
        _ => panic!("expected no profile"),
    }
    assert_eq!(w.last_applied(), "");
}

#[test]
fn failed_write_keeps_last_applied() {
    let mut w = ChangeWatcher::new();
    w.on_applied("1".to_string(), ApplyOutcome::Applied);
    w.on_applied("2".to_string(), ApplyOutcome::WriteFailed);
    assert_eq!(w.last_applied(), "1");
    w.on_applied("3".to_string(), ApplyOutcome::ReloadFailed);
    assert_eq!(w.last_applied(), "3");
}

#[test]
fn apply_outcomes() {
    assert_eq!(apply_outcome(false, true), ApplyOutcome::WriteFailed);
    assert_eq!(apply_outcome(false, false), ApplyOutcome::WriteFailed);
    assert_eq!(apply_outcome(true, true), ApplyOutcome::Applied);
    assert_eq!(apply_outcome(true, false), ApplyOutcome::ReloadFailed);
    assert!(ApplyOutcome::ReloadFailed.live_written());
    assert!(!ApplyOutcome::WriteFailed.live_written());
}

#[test]
fn reload_arguments_name_the_profile() {
    assert_eq!(reload_arguments("wallmeter"), vec!["!LoadLayout".to_string(), "wallmeter".to_string()]);
}
