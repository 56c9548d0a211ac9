use bagpack_core::{
    CollectionError, CollectionSummary, CollectionWarning, CommandError, InventorySnapshot,
    PackageManager, PackageRecord, PackageStatus,
};

#[test]
fn counts_outdated_packages() {
    let mut snapshot = InventorySnapshot::default();
    snapshot.push(PackageRecord {
        name: "wget".into(),
        current_version: "1.24.5".into(),
        latest_version: Some("1.24.6".into()),
        installed_at: None,
        status: PackageStatus::Outdated,
        manager: PackageManager::Brew,
    });
    snapshot.push(PackageRecord {
        name: "typescript".into(),
        current_version: "5.5.2".into(),
        latest_version: Some("5.6.3".into()),
        installed_at: None,
        status: PackageStatus::Current,
        manager: PackageManager::Npm,
    });
    snapshot.set_generated_at("2025-10-05T00:00:00Z");

    assert_eq!(snapshot.outdated_count(), 1);
    assert_eq!(
        snapshot.generated_at.as_deref(),
        Some("2025-10-05T00:00:00Z")
    );
}

fn record(name: &str, status: PackageStatus, manager: PackageManager) -> PackageRecord {
    PackageRecord {
        name: name.to_string(),
        current_version: "1".to_string(),
        latest_version: None,
        installed_at: None,
        status,
        manager,
    }
}

#[test]
fn default_snapshot_is_empty_and_unstamped() {
    let snapshot = InventorySnapshot::default();
    assert_eq!(snapshot.generated_at, None);
    assert!(snapshot.packages.is_empty());
    assert_eq!(snapshot.outdated_count(), 0);
}

#[test]
fn outdated_count_counts_outdated_only() {
    let mut snapshot = InventorySnapshot::default();
    snapshot.push(record("a", PackageStatus::Unknown, PackageManager::Pip));
    snapshot.push(record("b", PackageStatus::Outdated, PackageManager::Pip));
    snapshot.push(record("c", PackageStatus::Current, PackageManager::Brew));
    snapshot.push(record("d", PackageStatus::Outdated, PackageManager::Npm));
    snapshot.push(record("b", PackageStatus::Outdated, PackageManager::Pip));
    assert_eq!(snapshot.outdated_count(), 3);
    assert_eq!(
        snapshot.outdated_count(),
        snapshot.packages.iter().filter(|r| r.status == PackageStatus::Outdated).count()
    );
    assert_eq!(snapshot.packages.len(), 5);
    assert_eq!(snapshot.packages[3].name, "d");
}

#[test]
fn set_generated_at_replaces_the_stamp_and_keeps_the_packages() {
    let mut snapshot = InventorySnapshot::default();
    snapshot.push(record("a", PackageStatus::Current, PackageManager::Brew));
    snapshot.set_generated_at("2025-10-05T00:00:00Z");
    snapshot.set_generated_at("2026-01-01T12:00:00+02:00");
    assert_eq!(snapshot.generated_at.as_deref(), Some("2026-01-01T12:00:00+02:00"));
    assert_eq!(snapshot.packages, vec![record("a", PackageStatus::Current, PackageManager::Brew)]);
}

#[test]
fn new_summary_holds_the_snapshot_and_no_warning() {
    let mut snapshot = InventorySnapshot::default();
    snapshot.push(record("a", PackageStatus::Outdated, PackageManager::Brew));
    snapshot.set_generated_at("2025-10-05T00:00:00Z");
    let summary = CollectionSummary::new(snapshot.clone());
    assert_eq!(summary.snapshot, snapshot);
    assert!(summary.warnings.is_empty());
    let empty = CollectionSummary::default();
    assert_eq!(empty.snapshot, InventorySnapshot::default());
    assert!(empty.warnings.is_empty());
}

#[test]
fn push_warning_keeps_the_failure_in_words() {
    let mut summary = CollectionSummary::default();
    summary.push_warning(PackageManager::Pip, CollectionError::Json("expected value".to_string()));
    summary.push_warning(
        PackageManager::Brew,
        CollectionError::Command(CommandError::Spawn {
            program: "brew".to_string(),
            source: "command not found".to_string(),
        }),
    );
    assert_eq!(
        summary.warnings,
        vec![
            CollectionWarning {
                manager: PackageManager::Pip,
                message: "json parse error: expected value".to_string(),
            },
            CollectionWarning {
                manager: PackageManager::Brew,
                message: "brew failed to run: failed to spawn brew: command not found".to_string(),
            },
        ]
    );
    assert!(summary.snapshot.packages.is_empty());
}

#[test]
fn extend_packages_appends_in_order() {
    let mut summary = CollectionSummary::default();
    summary.extend_packages(vec![record("a", PackageStatus::Current, PackageManager::Brew)]);
    summary.extend_packages(vec![]);
    summary.extend_packages(vec![
        record("b", PackageStatus::Outdated, PackageManager::Npm),
        record("c", PackageStatus::Current, PackageManager::Npm),
    ]);
    let names: Vec<&str> = summary.snapshot.packages.iter().map(|r| r.name.as_str()).collect();
    assert_eq!(names, vec!["a", "b", "c"]);
    assert!(summary.warnings.is_empty());
}
