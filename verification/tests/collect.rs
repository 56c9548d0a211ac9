use bagpack_core::collect::{assemble, Collector};
use bagpack_core::probe::{list_request, outdated_request, settle_check, settle_listing, Listing};
use bagpack_core::runner::Execution;
use bagpack_core::{
    CollectionError, CollectionSummary, CollectionWarning, CommandError, PackageManager,
    PackageRecord, PackageStatus,
};

fn ok(stdout: &str) -> Execution {
    Execution::Finished { stdout: stdout.as_bytes().to_vec(), stderr: Vec::new(), code: Some(0) }
}

fn exit(stdout: &str, stderr: &str, code: i32) -> Execution {
    Execution::Finished {
        stdout: stdout.as_bytes().to_vec(),
        stderr: stderr.as_bytes().to_vec(),
        code: Some(code),
    }
}

fn missing() -> Execution {
    Execution::NotStarted { reason: "command not found".to_string() }
}

fn record(
    manager: PackageManager,
    name: &str,
    current: &str,
    latest: Option<&str>,
    status: PackageStatus,
) -> PackageRecord {
    PackageRecord {
        name: name.to_string(),
        current_version: current.to_string(),
        latest_version: latest.map(|version| version.to_string()),
        installed_at: None,
        status,
        manager,
    }
}

fn run(generated_at: Option<&str>, executions: Vec<Execution>) -> CollectionSummary {
    let mut collector = Collector::new(generated_at.map(|stamp| stamp.to_string()));
    for execution in executions {
        assert!(collector.pending().is_some());
        assert!(!collector.is_done());
        collector.advance(execution);
    }
    assert!(collector.is_done());
    assert_eq!(collector.pending(), None);
    collector.finish()
}

const BREW_LIST: &str = "wget 1.24.5\ntypescript 5.5.2\n";
const BREW_OUTDATED: &str =
    "{\"formulae\":[{\"name\":\"wget\",\"current_version\":\"1.24.5\",\"latest_version\":\"1.24.6\"}]}";
const NPM_LIST: &str = "{\"dependencies\":{\"typescript\":{\"version\":\"5.5.2\"}}}";
const NPM_OUTDATED: &str = "{\"typescript\":{\"current\":\"5.5.2\",\"latest\":\"5.6.3\"}}";
const PIP_LIST: &str = "[{\"name\":\"requests\",\"version\":\"2.32.3\"}]";

fn brew_records() -> Vec<PackageRecord> {
    vec![
        record(PackageManager::Brew, "wget", "1.24.5", Some("1.24.6"), PackageStatus::Outdated),
        record(PackageManager::Brew, "typescript", "5.5.2", None, PackageStatus::Current),
    ]
}

fn npm_records() -> Vec<PackageRecord> {
    vec![record(PackageManager::Npm, "typescript", "5.5.2", Some("5.6.3"), PackageStatus::Outdated)]
}

fn pip_records() -> Vec<PackageRecord> {
    vec![record(PackageManager::Pip, "requests", "2.32.3", None, PackageStatus::Current)]
}

#[test]
fn pass_asks_for_the_commands_in_order() {
    let mut collector = Collector::new(None);
    assert_eq!(collector.pending(), Some(list_request(PackageManager::Brew)));
    collector.advance(ok(BREW_LIST));
    assert_eq!(collector.pending(), Some(outdated_request(PackageManager::Brew)));
    collector.advance(ok(BREW_OUTDATED));
    assert_eq!(collector.summary().snapshot.packages, brew_records());
    assert_eq!(collector.pending(), Some(list_request(PackageManager::Npm)));
    collector.advance(ok(NPM_LIST));
    assert_eq!(collector.pending(), Some(outdated_request(PackageManager::Npm)));
    collector.advance(exit(NPM_OUTDATED, "", 1));
    assert_eq!(collector.pending(), Some(list_request(PackageManager::Pip)));
    collector.advance(ok(PIP_LIST));
    assert_eq!(collector.pending(), Some(outdated_request(PackageManager::Pip)));
    assert!(!collector.is_done());
    collector.advance(ok("[]"));
    assert!(collector.is_done());
    assert_eq!(collector.pending(), None);
}

#[test]
fn packages_are_grouped_by_manager_in_fixed_order() {
    let summary = run(
        Some("2025-10-05T00:00:00Z"),
        vec![
            ok(BREW_LIST),
            ok(BREW_OUTDATED),
            ok(NPM_LIST),
            exit(NPM_OUTDATED, "", 1),
            ok(PIP_LIST),
            ok(""),
        ],
    );
    let mut expected = brew_records();
    expected.extend(npm_records());
    expected.extend(pip_records());
    assert_eq!(summary.snapshot.packages, expected);
    assert_eq!(summary.snapshot.generated_at, Some("2025-10-05T00:00:00Z".to_string()));
    assert_eq!(summary.warnings, vec![]);
    assert_eq!(summary.snapshot.outdated_count(), 2);
}

#[test]
fn failed_list_call_gives_one_warning_and_no_record() {
    let summary = run(
        None,
        vec![ok(BREW_LIST), ok(BREW_OUTDATED), missing(), ok(PIP_LIST), ok("")],
    );
    let mut expected = brew_records();
    expected.extend(pip_records());
    assert_eq!(summary.snapshot.packages, expected);
    assert_eq!(
        summary.warnings,
        vec![CollectionWarning {
            manager: PackageManager::Npm,
            message: "npm failed to run: failed to spawn npm: command not found".to_string(),
        }]
    );
    assert_eq!(summary.snapshot.generated_at, None);
}

#[test]
fn every_probe_may_fail_and_the_pass_still_ends() {
    let summary = run(None, vec![missing(), exit("", "denied", 3), ok("not json")]);
    assert_eq!(summary.snapshot.packages, vec![]);
    assert_eq!(
        summary.warnings,
        vec![
            CollectionWarning {
                manager: PackageManager::Brew,
                message: "brew failed to run: failed to spawn brew: command not found".to_string(),
            },
            CollectionWarning {
                manager: PackageManager::Npm,
                message: "npm ls -g --depth=0 --json failed to run: npm ls -g --depth=0 --json exited with status Some(3): denied".to_string(),
            },
            CollectionWarning {
                manager: PackageManager::Pip,
                message: "json parse error: expected ident at line 1 column 2".to_string(),
            },
        ]
    );
}

#[test]
fn failed_outdated_call_loses_the_records_of_that_manager_only() {
    let summary = run(
        None,
        vec![ok(BREW_LIST), exit("", "no network", 1), ok(NPM_LIST), ok(""), ok(PIP_LIST), ok("[")],
    );
    assert_eq!(
        summary.snapshot.packages,
        vec![record(PackageManager::Npm, "typescript", "5.5.2", None, PackageStatus::Current)]
    );
    assert_eq!(
        summary.warnings,
        vec![
            CollectionWarning {
                manager: PackageManager::Brew,
                message: "brew outdated --json=v2 failed to run: brew outdated --json=v2 exited with status Some(1): no network".to_string(),
            },
            CollectionWarning {
                manager: PackageManager::Pip,
                message: "json parse error: EOF while parsing a list at line 1 column 1".to_string(),
            },
        ]
    );
}

#[test]
fn nothing_installed_skips_the_outdated_command() {
    let summary = run(None, vec![ok(""), ok("{}"), ok("[]")]);
    assert_eq!(summary.snapshot.packages, vec![]);
    assert_eq!(summary.warnings, vec![]);
    let summary = run(None, vec![ok("\n"), ok("{\"dependencies\":{\"x\":{}}}"), ok(" [ ] ")]);
    assert_eq!(summary.snapshot.packages, vec![]);
    assert_eq!(summary.warnings, vec![]);
}

#[test]
fn two_passes_over_the_same_output_differ_in_the_stamp_only() {
    let executions = || {
        vec![
            ok(BREW_LIST),
            ok(BREW_OUTDATED),
            ok(NPM_LIST),
            exit("{", "", 1),
            ok(PIP_LIST),
            ok(""),
        ]
    };
    let first = run(Some("2025-10-05T00:00:00Z"), executions());
    let second = run(Some("2025-10-05T00:00:09Z"), executions());
    assert_eq!(first.snapshot.packages, second.snapshot.packages);
    assert_eq!(first.warnings, second.warnings);
    assert_eq!(first.warnings.len(), 1);
    assert_ne!(first.snapshot.generated_at, second.snapshot.generated_at);
}

#[test]
fn a_done_pass_ignores_further_executions() {
    let mut collector = Collector::new(None);
    collector.advance(ok(""));
    collector.advance(ok("{}"));
    collector.advance(ok("[]"));
    assert!(collector.is_done());
    collector.advance(missing());
    collector.advance(ok(BREW_LIST));
    assert!(collector.is_done());
    let summary = collector.finish();
    assert_eq!(summary.snapshot.packages, vec![]);
    assert_eq!(summary.warnings, vec![]);
}

#[test]
fn begin_stamps_the_pass_with_the_current_instant() {
    let collector = Collector::begin();
    assert_eq!(collector.pending(), Some(list_request(PackageManager::Brew)));
    let summary = collector.finish();
    let stamp = summary.snapshot.generated_at.expect("the current instant can be written");
    assert!(stamp.len() >= 20, "{}", stamp);
    assert_eq!(&stamp[4..5], "-");
    assert_eq!(&stamp[10..11], "T");
    assert!(stamp.ends_with('Z'), "{}", stamp);
    assert!(&stamp[0..4] >= "2024", "{}", stamp);
    assert!(summary.snapshot.packages.is_empty());
    assert!(summary.warnings.is_empty());
}

#[test]
fn listing_settles_or_hands_on_the_installed_packages() {
    match settle_listing(PackageManager::Brew, ok(BREW_LIST)) {
        Listing::Installed(installed) => assert_eq!(
            installed,
            vec![
                ("wget".to_string(), "1.24.5".to_string()),
                ("typescript".to_string(), "5.5.2".to_string()),
            ]
        ),
        Listing::Settled(_) => panic!("packages are installed"),
    }
    match settle_listing(PackageManager::Pip, ok("[]")) {
        Listing::Settled(harvest) => assert_eq!(harvest, Ok(vec![])),
        Listing::Installed(_) => panic!("nothing is installed"),
    }
    match settle_listing(PackageManager::Npm, exit("{}", "", 1)) {
        Listing::Settled(harvest) => assert_eq!(
            harvest,
            Err(CollectionError::Command(CommandError::Status {
                program: "npm ls -g --depth=0 --json".to_string(),
                code: Some(1),
                stderr: String::new(),
            }))
        ),
        Listing::Installed(_) => panic!("the list command failed"),
    }
}

#[test]
fn check_builds_the_records_of_the_installed_packages() {
    let installed = vec![("typescript".to_string(), "5.5.2".to_string())];
    assert_eq!(
        settle_check(PackageManager::Npm, &installed, exit(NPM_OUTDATED, "", 1)),
        Ok(npm_records())
    );
    assert_eq!(
        settle_check(PackageManager::Pip, &installed, exit("[]", "", 1)),
        Err(CollectionError::Command(CommandError::Status {
            program: "pip list --outdated --format=json".to_string(),
            code: Some(1),
            stderr: String::new(),
        }))
    );
}

#[test]
fn assemble_puts_the_harvests_in_the_order_of_a_pass() {
    let summary = assemble(
        Some("2025-10-05T00:00:00Z".to_string()),
        Ok(brew_records()),
        Err(CollectionError::Json("expected value at line 1 column 1".to_string())),
        Ok(pip_records()),
    );
    let mut expected = brew_records();
    expected.extend(pip_records());
    assert_eq!(summary.snapshot.packages, expected);
    assert_eq!(summary.snapshot.generated_at, Some("2025-10-05T00:00:00Z".to_string()));
    assert_eq!(
        summary.warnings,
        vec![CollectionWarning {
            manager: PackageManager::Npm,
            message: "json parse error: expected value at line 1 column 1".to_string(),
        }]
    );
    let same = run(
        Some("2025-10-05T00:00:00Z"),
        vec![ok(BREW_LIST), ok(BREW_OUTDATED), ok(""), ok(PIP_LIST), ok("")],
    );
    assert_eq!(same.snapshot, summary.snapshot);
    assert_eq!(same.warnings.len(), 1);
    assert_eq!(same.warnings[0].manager, PackageManager::Npm);
}
