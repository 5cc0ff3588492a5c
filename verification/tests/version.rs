use ets_vibes_core::version;

#[test]
fn version_matches_build_version() {
    assert_eq!(version(), "0.1.0");
}

#[test]
fn version_is_nonempty() {
    assert!(!version().is_empty());
}

#[test]
fn version_is_stable_across_calls() {
    assert_eq!(version(), version());
}
