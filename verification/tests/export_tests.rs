use coveralls_export::ci::resolve;
use coveralls_export::config::Config;
use coveralls_export::coverage::{
    build_line_map, CoverageDataset, CoverageStat, FileCoverage, Trace,
};
use coveralls_export::environment::{EnvSnapshot, EnvVar};
use coveralls_export::report::{
    complete_export, prepare_export, select_identity, ExportError, Identity, SubmissionTarget,
};
use coveralls_export::wire::{collect_sources, realize_entries};

fn env_of(pairs: &[(&str, &str)]) -> EnvSnapshot {
    let mut vars = Vec::new();
    for (name, value) in pairs {
        vars.push(EnvVar { name: name.to_string(), value: value.to_string() });
    }
    EnvSnapshot { vars }
}

fn config_with_key(key: &str) -> Config {
    Config {
        coveralls: Some(key.to_string()),
        ci_tool: None,
        report_uri: None,
        project_root: String::new(),
    }
}

#[test]
fn resolver_picks_circle_when_only_circle_marker_present() {
    let env = env_of(&[
        ("CIRCLECI", "true"),
        ("CIRCLE_SHA1", "abc123"),
        ("CIRCLE_USERNAME", "dev"),
        ("CIRCLE_BRANCH", "main"),
    ]);
    let d = resolve(&env).expect("marker present, descriptor expected");
    assert_eq!(d.branch, "main");
    assert_eq!(d.head.id, "abc123");
    assert_eq!(d.head.author_name, "dev");
    assert_eq!(d.head.committer_name, "dev");
    assert_eq!(d.head.author_email, "");
    assert_eq!(d.head.committer_email, "");
    assert_eq!(d.head.message, "");
}

#[test]
fn resolver_unset_circle_fields_become_empty_strings() {
    let env = env_of(&[("CIRCLECI", "true")]);
    let d = resolve(&env).expect("marker present, descriptor expected");
    assert_eq!(d.branch, "");
    assert_eq!(d.head.id, "");
    assert_eq!(d.head.author_name, "");
}

#[test]
fn resolver_prefers_circle_when_both_markers_present() {
    let env = env_of(&[
        ("BUILDKITE", "true"),
        ("BUILDKITE_COMMIT", "deadbeef"),
        ("CIRCLECI", "true"),
        ("CIRCLE_SHA1", "abc123"),
    ]);
    let d = resolve(&env).expect("markers present, descriptor expected");
    assert_eq!(d.head.id, "abc123");
}

#[test]
fn snapshot_lookup_takes_the_first_binding_of_a_repeated_name() {
    let env = env_of(&[("CIRCLECI", "first"), ("CIRCLECI", "second")]);
    assert_eq!(env.var("CIRCLECI"), Some("first".to_string()));
    assert_eq!(env.var("UNSET"), None);
    assert_eq!(env.var_or_empty("UNSET"), "");
}

#[test]
fn resolver_returns_nothing_without_any_marker() {
    let env = env_of(&[("CIRCLE_SHA1", "abc123"), ("HOME", "/root")]);
    assert!(resolve(&env).is_none());
}

#[test]
fn resolver_buildkite_uses_build_creator_for_author() {
    let env = env_of(&[
        ("BUILDKITE", "true"),
        ("BUILDKITE_COMMIT", "deadbeef"),
        ("BUILDKITE_BRANCH", "feature"),
        ("BUILDKITE_BUILD_CREATOR", "Kit Builder"),
        ("BUILDKITE_BUILD_CREATOR_EMAIL", "kit@example.com"),
        ("BUILDKITE_MESSAGE", "fix the widget"),
    ]);
    let d = resolve(&env).expect("marker present, descriptor expected");
    assert_eq!(d.branch, "feature");
    assert_eq!(d.head.id, "deadbeef");
    assert_eq!(d.head.author_name, "Kit Builder");
    assert_eq!(d.head.author_email, "kit@example.com");
    assert_eq!(d.head.committer_name, "Kit Builder");
    assert_eq!(d.head.committer_email, "kit@example.com");
    assert_eq!(d.head.message, "fix the widget");
}

#[test]
fn line_map_keeps_line_hits_and_skips_branch_statistics() {
    let traces = vec![
        Trace { line: 1, stat: CoverageStat::Line(2) },
        Trace { line: 5, stat: CoverageStat::Line(0) },
        Trace { line: 7, stat: CoverageStat::Line(1) },
        Trace { line: 3, stat: CoverageStat::Branch },
    ];
    let m = build_line_map(&traces);
    assert_eq!(m.len(), 3);
    assert_eq!(m.get(&1), Some(&2));
    assert_eq!(m.get(&5), Some(&0));
    assert_eq!(m.get(&7), Some(&1));
    assert_eq!(m.get(&3), None);
}

#[test]
fn line_map_later_statistic_overrides_earlier_on_same_line() {
    let traces = vec![
        Trace { line: 4, stat: CoverageStat::Line(1) },
        Trace { line: 4, stat: CoverageStat::Line(9) },
    ];
    let m = build_line_map(&traces);
    assert_eq!(m.len(), 1);
    assert_eq!(m.get(&4), Some(&9));
}

#[test]
fn file_without_coverable_lines_still_contributes_an_entry() {
    let dataset = CoverageDataset {
        files: vec![FileCoverage { path: "empty.rs".to_string(), traces: vec![] }],
    };
    let env = env_of(&[]);
    let ps = prepare_export(&dataset, &config_with_key("tok"), &env).expect("credential present");
    assert_eq!(ps.report.entries.len(), 1);
    assert!(ps.report.entries[0].coverage.is_empty());
}

#[test]
fn missing_credential_fails_before_anything_is_planned() {
    let dataset = CoverageDataset {
        files: vec![FileCoverage { path: "a.rs".to_string(), traces: vec![] }],
    };
    let config = Config {
        coveralls: None,
        ci_tool: Some("travis-ci".to_string()),
        report_uri: Some("http://example.com".to_string()),
        project_root: String::new(),
    };
    let env = env_of(&[]);
    let r = prepare_export(&dataset, &config, &env);
    assert!(matches!(r, Err(ExportError::MissingCredential)));
}

#[test]
fn identity_is_service_token_when_ci_tool_configured() {
    let id = select_identity(&Some("travis-ci".to_string()), &"sekrit".to_string());
    match id {
        Identity::ServiceToken { service_name, service_job_id } => {
            assert_eq!(service_name, "travis-ci");
            assert_eq!(service_job_id, "sekrit");
        },
        Identity::RepoToken(_) => panic!("expected the service-token variant"),
    }
}

#[test]
fn identity_is_repo_token_without_ci_tool() {
    let id = select_identity(&None, &"sekrit".to_string());
    match id {
        Identity::RepoToken(k) => assert_eq!(k, "sekrit"),
        Identity::ServiceToken { .. } => panic!("expected the repo-token variant"),
    }
}

#[test]
fn submission_targets_override_endpoint_when_configured() {
    let dataset = CoverageDataset { files: vec![] };
    let mut config = config_with_key("tok");
    config.report_uri = Some("http://cov.example.com/api".to_string());
    let env = env_of(&[]);
    let ps = prepare_export(&dataset, &config, &env).expect("credential present");
    match ps.target {
        SubmissionTarget::OverrideEndpoint(uri) => {
            assert_eq!(uri, "http://cov.example.com/api")
        },
        SubmissionTarget::DefaultEndpoint => panic!("expected the override endpoint"),
    }
}

#[test]
fn submission_targets_default_endpoint_without_override() {
    let dataset = CoverageDataset { files: vec![] };
    let env = env_of(&[]);
    let ps = prepare_export(&dataset, &config_with_key("tok"), &env).expect("credential present");
    assert!(matches!(ps.target, SubmissionTarget::DefaultEndpoint));
}

#[test]
fn paths_are_relativized_against_the_project_root() {
    let mut config = config_with_key("tok");
    config.project_root = "/home/dev/proj".to_string();
    assert_eq!(
        config.strip_project_path(&"/home/dev/proj/src/main.rs".to_string()),
        "src/main.rs"
    );
    assert_eq!(config.strip_project_path(&"/elsewhere/main.rs".to_string()), "/elsewhere/main.rs");
    assert_eq!(config.strip_project_path(&"/home/dev/proj".to_string()), "");
}

#[test]
fn empty_project_root_leaves_paths_unchanged() {
    let config = config_with_key("tok");
    assert_eq!(config.strip_project_path(&"src/lib.rs".to_string()), "src/lib.rs");
}

#[test]
fn failing_entry_is_omitted_and_the_rest_of_the_report_survives() {
    let dataset = CoverageDataset {
        files: vec![
            FileCoverage {
                path: "/dev/null".to_string(),
                traces: vec![Trace { line: 1, stat: CoverageStat::Line(1) }],
            },
            FileCoverage {
                path: "no-such-file-anywhere.xyz".to_string(),
                traces: vec![Trace { line: 2, stat: CoverageStat::Line(3) }],
            },
        ],
    };
    let env = env_of(&[]);
    let ps = prepare_export(&dataset, &config_with_key("tok"), &env).expect("credential present");
    assert_eq!(ps.report.entries.len(), 2);
    let outcomes = realize_entries(&ps.report.entries);
    assert_eq!(outcomes.len(), 2);
    assert!(outcomes[0].is_some());
    assert!(outcomes[1].is_none());
    let sources = collect_sources(outcomes);
    assert_eq!(sources.len(), 1);
}

#[test]
fn successful_submission_outcome_maps_to_success() {
    assert!(complete_export(Ok(())).is_ok());
}

#[test]
fn failed_submission_outcome_wraps_the_underlying_message() {
    let r = complete_export(Err("connection refused".to_string()));
    match r {
        Err(ExportError::SubmissionFailure(msg)) => {
            assert_eq!(msg, "Coveralls send failed. connection refused");
        },
        _ => panic!("expected a submission failure"),
    }
}
