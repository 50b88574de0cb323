use cargo_eval::error::Blame;
use cargo_eval::paths::{join_path, legacy_root_of};
use cargo_eval::resolver::{
    cache_dir_candidate, resolve_cache_dir, resolve_config_dir, EnvSnapshot, LegacyProbe,
    ResolveError, home_var_name, primary_var_name,
};

fn env(primary: Option<&str>, home: Option<&str>) -> EnvSnapshot {
    EnvSnapshot {
        primary_home: primary.map(|s| s.to_string()),
        user_home: home.map(|s| s.to_string()),
    }
}

const NO_LEGACY: LegacyProbe = LegacyProbe { dir_exists: false, has_marker: false };

#[test]
fn primary_override_wins() {
    let e = env(Some("/opt/eval-home"), Some("/home/u"));
    let dir = resolve_cache_dir(&e, &NO_LEGACY).unwrap();
    assert_eq!(dir, "/opt/eval-home");
}

#[test]
fn legacy_subdirectory_with_marker_is_preferred() {
    let e = env(Some("/opt/eval-home"), None);
    let probe = LegacyProbe { dir_exists: true, has_marker: true };
    let dir = resolve_cache_dir(&e, &probe).unwrap();
    assert_eq!(dir, "/opt/eval-home/cargo-eval-legacy");
}

#[test]
fn legacy_subdirectory_without_marker_is_ignored() {
    let e = env(Some("/opt/eval-home"), None);
    let probe = LegacyProbe { dir_exists: true, has_marker: false };
    assert_eq!(resolve_cache_dir(&e, &probe).unwrap(), "/opt/eval-home");
    let probe = LegacyProbe { dir_exists: false, has_marker: true };
    assert_eq!(resolve_cache_dir(&e, &probe).unwrap(), "/opt/eval-home");
}

#[test]
fn home_fallback_appends_fixed_subdirectory() {
    let e = env(None, Some("/home/u"));
    let dir = resolve_cache_dir(&e, &NO_LEGACY).unwrap();
    assert_eq!(dir, "/home/u/.cargo-eval");
    assert_eq!(cache_dir_candidate(&e).unwrap(), "/home/u/.cargo-eval");
}

#[test]
fn missing_environment_is_a_human_error() {
    let e = env(None, None);
    let err = resolve_cache_dir(&e, &NO_LEGACY).unwrap_err();
    assert_eq!(err, ResolveError::NoDirectorySource);
    assert_eq!(err.blame(), Blame::Human);
    assert_eq!(
        err.message(),
        "cannot locate a cache directory: neither CARGO_EVAL_HOME nor HOME is set"
    );
}

#[test]
fn config_dir_currently_matches_cache_dir() {
    let cases = [
        env(Some("/opt/x"), Some("/home/u")),
        env(None, Some("/home/u")),
        env(None, None),
    ];
    let probe = LegacyProbe { dir_exists: true, has_marker: true };
    for e in cases {
        assert_eq!(
            resolve_cache_dir(&e, &probe),
            resolve_config_dir(&e, &probe)
        );
    }
}

#[test]
fn variable_names_and_paths() {
    assert_eq!(primary_var_name(), "CARGO_EVAL_HOME");
    assert_eq!(home_var_name(), "HOME");
    assert_eq!(join_path("a/b", "c"), "a/b/c");
    assert_eq!(legacy_root_of("/r"), "/r/cargo-eval-legacy");
}
