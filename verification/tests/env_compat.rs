//! Environment variables that configuration fields have taken the place of.

use edge_config::env_compat::{
    deprecated_variables, env_flag, removed_variables, resolve_tuning, DeprecatedEnvUse,
    EnvStatus, ResolvedTuning,
};
use edge_config::id_map::IdMap;
use edge_config::models::NodeTuningConfig;

/// An environment with the listed variables.
fn environment(vars: &[(&str, &str)]) -> IdMap<String> {
    let mut env = IdMap::new();
    for (k, v) in vars {
        env.insert(k.to_string(), v.to_string());
    }
    env
}

#[test]
fn config_wins_over_the_deprecated_env() {
    // The env fallback must never override an explicit config field —
    // that would reintroduce exactly the silent-no-op trap the move
    // away from environment variables exists to close.
    let tuning = NodeTuningConfig {
        ingress_residence_ms: Some(900),
        probe_session_limits: Some(false),
        ..Default::default()
    };
    let (resolved, found) = resolve_tuning(
        Some(&tuning),
        &environment(&[
            ("BILBYCAST_INGRESS_RESIDENCE_MS", "4321"),
            ("BILBYCAST_PROBE_SESSION_LIMITS", "1"),
        ]),
    );
    assert_eq!(resolved.ingress_residence_ms, Some(900), "config must win");
    assert!(!resolved.probe_session_limits, "config must win");
    // ...and the now-ineffective variables are still reported, so the
    // operator learns to delete them rather than wondering why editing
    // one changed nothing.
    assert_eq!(found.len(), 2, "{found:?}");
    assert!(found.iter().all(|f| f.status == EnvStatus::Deprecated));
}

#[test]
fn the_env_answers_only_when_the_config_field_is_absent() {
    let (resolved, found) = resolve_tuning(
        None,
        &environment(&[
            ("BILBYCAST_INGRESS_RESIDENCE_MS", "777"),
            ("BILBYCAST_PROBE_4K", "off"),
        ]),
    );
    assert_eq!(resolved.ingress_residence_ms, Some(777));
    assert!(!resolved.probe_4k);
    assert!(resolved.probe_session_limits, "untouched knob keeps its default");
    assert_eq!(found.len(), 2, "{found:?}");
}

#[test]
fn the_removed_ingress_setpoint_is_reported_and_never_applied() {
    // BILBYCAST_INGRESS_BUFFER_MS never had an effect in any release.
    // Honouring it now would start adding ingress latency to every
    // UDP/RTP input on a host whose unit file still pins it, so it is
    // reported as removed and the resolved setpoint stays empty.
    let (resolved, found) = resolve_tuning(None, &environment(&[("BILBYCAST_INGRESS_BUFFER_MS", "250")]));
    assert_eq!(resolved.ingress_dejitter_ms, None, "must not be applied");
    let hit = found
        .iter()
        .find(|f| f.var == "BILBYCAST_INGRESS_BUFFER_MS")
        .expect("must still be reported");
    assert_eq!(hit.status, EnvStatus::Removed);
    assert!(hit.replacement.contains("tuning.ingress_dejitter_ms"));
}

#[test]
fn a_clean_environment_reports_nothing() {
    // A false positive here would put a Warning on the manager's Events
    // page for every node in the fleet on every boot.
    let (_, found) = resolve_tuning(None, &environment(&[]));
    assert!(found.is_empty(), "{found:?}");
}

#[test]
fn an_unparseable_deprecated_value_is_reported_and_falls_through() {
    // Reporting it as honoured while silently dropping it would be the
    // worst of both worlds: the operator is told the variable still
    // works, and the value it holds is discarded.
    let (resolved, found) = resolve_tuning(None, &environment(&[("BILBYCAST_INGRESS_RESIDENCE_MS", "not-a-number")]));
    assert_eq!(resolved.ingress_residence_ms, None);
    let hit = found
        .iter()
        .find(|f| f.var == "BILBYCAST_INGRESS_RESIDENCE_MS")
        .expect("must be reported even though it could not be parsed");
    assert_eq!(hit.status, EnvStatus::Unparseable);
    assert!(hit.message().contains("could not be read"), "{}", hit.message());
}

#[test]
fn absent_config_and_absent_env_is_the_documented_default() {
    let (resolved, _) = resolve_tuning(None, &environment(&[]));
    assert_eq!(resolved, ResolvedTuning::default());
    assert!(resolved.probe_session_limits);
    assert!(resolved.probe_4k);
    assert_eq!(resolved.ingress_dejitter_ms, None);
}

#[test]
fn env_flag_matches_the_previous_parser() {
    for off in ["0", "false", "no", "off", "OFF", " False "] {
        assert!(!env_flag(off), "{off} should read as off");
    }
    for on in ["1", "true", "yes", "", "garbage"] {
        assert!(env_flag(on), "{on} should read as on");
    }
}

#[test]
fn a_removed_variable_reports_that_it_does_nothing() {
    let use_ = DeprecatedEnvUse {
        var: "BILBYCAST_EGRESS_PACING",
        replacement: "the per-output `egress_pacing` config field",
        status: EnvStatus::Removed,
        value: "servo".into(),
    };
    let msg = use_.message();
    assert!(msg.contains("has been removed"), "{msg}");
    assert!(msg.contains("NOT being applied"), "{msg}");
}

#[test]
fn every_listed_variable_names_a_distinct_replacement() {
    // A copy-paste that points two variables at the same field sends an
    // operator to a knob that cannot express what they asked for.
    let deprecated = deprecated_variables();
    let removed = removed_variables();
    let mut names: Vec<&str> = deprecated.iter().map(|(n, _)| *n).collect();
    names.extend(removed.iter().map(|(n, _)| *n));
    let before = names.len();
    names.sort_unstable();
    names.dedup();
    assert_eq!(before, names.len(), "duplicate variable in the tables");

    let mut replacements: Vec<&str> = deprecated.iter().map(|(_, r)| *r).collect();
    replacements.extend(removed.iter().map(|(_, r)| *r));
    let before = replacements.len();
    replacements.sort_unstable();
    replacements.dedup();
    assert_eq!(
        before,
        replacements.len(),
        "two variables point at the same replacement: {replacements:?}"
    );

    for (var, replacement) in deprecated.iter().chain(removed.iter()) {
        assert!(!replacement.is_empty(), "{var} has no replacement");
        assert_ne!(var, replacement);
    }
}

#[test]
fn the_deprecated_and_removed_tables_do_not_overlap() {
    // A variable in both would be reported twice with contradictory
    // statuses, and the resolver would honour one it had just called dead.
    for (var, _) in deprecated_variables() {
        assert!(
            !removed_variables().iter().any(|(r, _)| *r == var),
            "{var} is in both tables"
        );
    }
}

#[test]
fn status_labels_are_stable() {
    assert_eq!(EnvStatus::Deprecated.label(), "deprecated");
    assert_eq!(EnvStatus::Removed.label(), "removed");
}
