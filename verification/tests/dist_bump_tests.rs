use snm::bump::{bump_candidates, parse_pre_number, replace_version_field};
use snm::dist::{check_supported_decision, classify_dist_index, dist_response_gate};
use snm::download::{fetch_step, fetch_verdict, verify_integrity, FetchAttemptOutcome, FetchDecision, FetchVerdict};
use snm::error::SnmError;
use snm::version::Version;
use snm::yarn::Yarn;
use snm::manifest::PackageManager;
use snm::translate::{AddCommandArgs, InstallCommandArgs};

#[test]
fn dist_index_with_matching_anchor_is_supported() {
    let page = "<html><body><a href=\"node-v20.1.0-darwin-arm64.tar.gz\">node-v20.1.0-darwin-arm64.tar.gz</a><a href=\"node-v20.1.0-linux-x64.tar.gz\">node-v20.1.0-linux-x64.tar.gz</a></body></html>";
    let (r, _) = classify_dist_index(page, "20.1.0", "linux", "x64");
    assert!(r.is_ok());
}

#[test]
fn dist_index_without_matching_anchor_fails_with_the_platform() {
    let page = "<html><body><a href=\"node-v20.1.0-darwin-arm64.tar.gz\">node-v20.1.0-darwin-arm64.tar.gz</a><a href=\"node-v20.1.0-win-x64.zip\">node-v20.1.0-win-x64.zip</a></body></html>";
    let (r, offered) = classify_dist_index(page, "20.1.0", "linux", "x64");
    match r {
        Err(SnmError::UnsupportedPlatform { os, arch }) => {
            assert_eq!(os, "linux");
            assert_eq!(arch, "x64");
        }
        other => panic!("expected the unsupported platform, got {:?}", other),
    }
    assert_eq!(
        offered,
        vec![
            "node-v20.1.0-darwin-arm64.tar.gz".to_string(),
            "node-v20.1.0-win-x64.zip".to_string()
        ]
    );
}

#[test]
fn dist_index_reads_anchors_not_raw_text() {
    // the build name appears in plain text but in no anchor target:
    // only real anchor extraction may say so
    let page = "supported builds: node-v20.1.0-linux-x64.tar.gz (no links here)";
    let (r, offered) = classify_dist_index(page, "20.1.0", "linux", "x64");
    assert!(matches!(r, Err(SnmError::UnsupportedPlatform { .. })));
    assert!(offered.is_empty());
}

#[test]
fn support_scan_stops_at_the_first_hit() {
    let links: Vec<String> = vec![
        "node-v20.1.0-aix-ppc64.tar.gz".to_string(),
        "node-v20.1.0-linux-x64.tar.gz".to_string(),
        "node-v20.1.0-win-x64.zip".to_string(),
    ];
    let (ok, offered) =
        check_supported_decision(&links, "node-v20.1.0-linux-x64", "node-v20.1.0");
    assert!(ok);
    // entries after the hit are not collected, per the scan order
    assert_eq!(offered, vec!["node-v20.1.0-aix-ppc64.tar.gz".to_string()]);
}

#[test]
fn response_gate_classifies_failures() {
    assert!(matches!(
        dist_response_gate(false, false, "https://nodejs.org/dist/", "linux", "x64"),
        Err(SnmError::DownloadFailed { .. })
    ));
    assert!(matches!(
        dist_response_gate(true, false, "https://nodejs.org/dist/", "linux", "x64"),
        Err(SnmError::UnsupportedPlatform { .. })
    ));
    assert!(dist_response_gate(true, true, "https://nodejs.org/dist/", "linux", "x64").is_ok());
}

#[test]
fn fetch_step_decisions() {
    assert_eq!(
        fetch_step(1, FetchAttemptOutcome::Success, "u"),
        FetchDecision::Proceed
    );
    assert_eq!(
        fetch_step(1, FetchAttemptOutcome::TransientFailure, "u"),
        FetchDecision::Retry { next_attempt: 2 }
    );
    assert_eq!(
        fetch_step(2, FetchAttemptOutcome::TransientFailure, "u"),
        FetchDecision::Retry { next_attempt: 3 }
    );
    assert!(matches!(
        fetch_step(3, FetchAttemptOutcome::TransientFailure, "u"),
        FetchDecision::Fail(SnmError::DownloadFailed { .. })
    ));
    assert!(matches!(
        fetch_step(1, FetchAttemptOutcome::HttpFailure, "u"),
        FetchDecision::Fail(SnmError::ResourceNotFound { .. })
    ));
}

#[test]
fn fetch_verdict_over_traces() {
    let ok = FetchAttemptOutcome::Success;
    let slow = FetchAttemptOutcome::TransientFailure;
    let gone = FetchAttemptOutcome::HttpFailure;
    assert_eq!(fetch_verdict(&vec![ok]), FetchVerdict::Fetched);
    assert_eq!(fetch_verdict(&vec![slow, ok]), FetchVerdict::Fetched);
    assert_eq!(fetch_verdict(&vec![slow, gone]), FetchVerdict::NotFound);
    assert_eq!(fetch_verdict(&vec![slow, slow, slow]), FetchVerdict::Exhausted);
    assert_eq!(fetch_verdict(&vec![slow, slow, slow, ok]), FetchVerdict::Exhausted);
    assert_eq!(fetch_verdict(&vec![]), FetchVerdict::Exhausted);
}

#[test]
fn integrity_gate_names_both_sums() {
    assert!(verify_integrity("/tmp/a.tgz", "abc123", "abc123").is_ok());
    match verify_integrity("/tmp/a.tgz", "abc123", "def456") {
        Err(SnmError::Sha256VerificationFailed { file_path, expect, actual }) => {
            assert_eq!(file_path, "/tmp/a.tgz");
            assert_eq!(expect, "abc123");
            assert_eq!(actual, "def456");
        }
        other => panic!("expected the checksum failure, got {:?}", other),
    }
}

#[test]
fn bump_candidates_from_a_plain_version() {
    let v = Version::parse("1.2.3").unwrap();
    let c = bump_candidates(&v);
    assert_eq!(c.major.to_version_string(), "2.0.0");
    assert_eq!(c.minor.to_version_string(), "1.3.0");
    assert_eq!(c.patch.to_version_string(), "1.2.4");
    assert_eq!(c.premajor.to_version_string(), "2.0.0-0");
    assert_eq!(c.preminor.to_version_string(), "1.3.0-0");
    assert_eq!(c.prepatch.to_version_string(), "1.2.4-0");
    assert_eq!(c.prerelease.to_version_string(), "1.2.3-1");
}

#[test]
fn bump_prerelease_advances_the_counter() {
    let v = Version::parse("1.2.3-4").unwrap();
    let c = bump_candidates(&v);
    assert_eq!(c.prerelease.to_version_string(), "1.2.3-5");
}

#[test]
fn pre_number_reads_only_small_digit_tails() {
    assert_eq!(parse_pre_number(&Some("7".to_string())), 7);
    assert_eq!(parse_pre_number(&Some("007".to_string())), 7);
    assert_eq!(parse_pre_number(&Some("255".to_string())), 255);
    assert_eq!(parse_pre_number(&Some("256".to_string())), 0);
    assert_eq!(parse_pre_number(&Some("alpha".to_string())), 0);
    assert_eq!(parse_pre_number(&None), 0);
}

#[test]
fn version_field_rewrite() {
    let text = "{\n  \"name\": \"demo\",\n  \"version\": \"1.2.3\",\n  \"private\": true\n}";
    let out = replace_version_field(text, "2.0.0");
    assert_eq!(
        out,
        "{\n  \"name\": \"demo\",\n  \"version\": \"2.0.0\",\n  \"private\": true\n}"
    );
}

#[test]
fn version_field_rewrite_normalizes_spacing() {
    let text = "{\"version\"   :   \"0.0.1\"}";
    assert_eq!(replace_version_field(text, "0.0.2"), "{\"version\": \"0.0.2\"}");
}

#[test]
fn version_field_rewrite_without_a_field_is_identity() {
    let text = "{\"name\": \"demo\"}";
    assert_eq!(replace_version_field(text, "9.9.9"), text);
}

#[test]
fn yarn_handle_decides_the_family() {
    let classic = Yarn::new(
        PackageManager { name: "yarn".to_string(), version: "1.22.19".to_string() },
        "/bin/yarn".to_string(),
    )
    .unwrap();
    assert!(!classic.is_ge_2);
    assert_eq!(
        classic.install(InstallCommandArgs { frozen_lockfile: true }),
        vec!["install".to_string(), "--frozen-lockfile".to_string()]
    );
    let modern = Yarn::new(
        PackageManager { name: "yarn".to_string(), version: "3.6.0".to_string() },
        "/bin/yarn".to_string(),
    )
    .unwrap();
    assert!(modern.is_ge_2);
    assert_eq!(
        modern.install(InstallCommandArgs { frozen_lockfile: true }),
        vec!["install".to_string(), "--immutable".to_string()]
    );
    assert_eq!(
        modern.install(InstallCommandArgs { frozen_lockfile: false }),
        vec!["install".to_string()]
    );
    let add = modern.add(AddCommandArgs {
        package_spec: "x".to_string(),
        save_prod: false,
        save_dev: false,
        save_optional: false,
        save_exact: false,
        save_peer: false,
        global: false,
    });
    assert!(matches!(add, Err(SnmError::UnsupportedCommand { .. })));
}
