use rust_compose::gate::{Exists, ObservedSlice, Ready};
use rust_compose::state::all_ready;

#[test]
fn helm_revision_zero_is_not_exists() {
    assert!(!Exists::from_helm_revision(0).is_set());
    assert!(Exists::from_helm_revision(1).is_set());
}

#[test]
fn exists_and_ready_are_distinct() {
    let mid_upgrade = ObservedSlice::helm(3, false);
    assert!(mid_upgrade.exists.is_set());
    assert!(!mid_upgrade.ready.is_set());
}

#[test]
fn helm_negative_revision_is_not_exists() {
    assert!(!Exists::from_helm_revision(-1).is_set());
    assert!(!ObservedSlice::helm(0, true).exists.is_set());
    assert!(ObservedSlice::helm(0, true).ready.is_set());
}

#[test]
fn nonempty_id_exists() {
    assert!(Exists::from_nonempty(Some("arn:aws:iam::1:role/x")).is_set());
    assert!(!Exists::from_nonempty(Some("")).is_set());
    assert!(!Exists::from_nonempty(None).is_set());
}

#[test]
fn observed_entry_is_exists() {
    assert!(Exists::from_observed_entry(true).is_set());
    assert!(!Exists::from_observed_entry(false).is_set());
}

#[test]
fn and_of_signals_is_conjunction() {
    assert!((Exists::yes() & Exists::yes()).is_set());
    assert!(!(Exists::yes() & Exists::no()).is_set());
    assert!(!(Exists::no() & Exists::yes()).is_set());
    assert!((Ready::yes() & Ready::yes()).is_set());
    assert!(!(Ready::yes() & Ready::no()).is_set());
}

#[test]
fn all_ready_is_conjunction() {
    assert!(all_ready(&[]).is_set());
    assert!(all_ready(&[Ready::yes(), Ready::yes()]).is_set());
    assert!(!all_ready(&[Ready::yes(), Ready::no(), Ready::yes()]).is_set());
}

#[test]
fn defaults_are_missing() {
    let s = ObservedSlice::default();
    assert_eq!(s, ObservedSlice::missing());
    assert!(!Exists::default().is_set());
    assert!(!Ready::default().is_set());
    assert_eq!(
        ObservedSlice::new(Exists::yes(), Ready::no()),
        ObservedSlice { exists: Exists(true), ready: Ready(false) }
    );
}
