//! A fixed inventory for trying out a front end without any package manager.

use crate::clock::utc_now_rfc3339;
use crate::model::{
    InventorySnapshot, PackageManager, PackageRecord, PackageStatus, RecordView, SnapshotView,
};
use vstd::prelude::*;

verus! {

/// The stamp of a demo inventory where the current instant cannot be written.
pub open spec fn fallback_stamp() -> Seq<char> {
    "2025-10-05T00:00:00Z"@
}

/// The three packages of the demo inventory: one of each manager, one of each
/// status.
pub open spec fn demo_packages() -> Seq<RecordView> {
    seq![
        RecordView {
            name: "wget"@,
            current_version: "1.24.5"@,
            latest_version: Some("1.24.6"@),
            installed_at: Some("2024-09-17T08:22:00Z"@),
            status: PackageStatus::Outdated,
            manager: PackageManager::Brew,
        },
        RecordView {
            name: "typescript"@,
            current_version: "5.5.2"@,
            latest_version: Some("5.6.3"@),
            installed_at: Some("2025-02-11T15:10:30Z"@),
            status: PackageStatus::Current,
            manager: PackageManager::Npm,
        },
        RecordView {
            name: "requests"@,
            current_version: "2.32.3"@,
            latest_version: None,
            installed_at: None,
            status: PackageStatus::Unknown,
            manager: PackageManager::Pip,
        },
    ]
}

/// The demo inventory, stamped with `generated_at`.
pub fn demo_inventory_at(generated_at: &str) -> (snapshot: InventorySnapshot)
    ensures
        snapshot@ == (SnapshotView {
            generated_at: Some(generated_at@),
            packages: demo_packages(),
        }),
{
    let mut snapshot = InventorySnapshot::default();
    snapshot.set_generated_at(generated_at);
    snapshot.push(
        PackageRecord {
            name: "wget".to_owned(),
            current_version: "1.24.5".to_owned(),
            latest_version: Some("1.24.6".to_owned()),
            installed_at: Some("2024-09-17T08:22:00Z".to_owned()),
            status: PackageStatus::Outdated,
            manager: PackageManager::Brew,
        },
    );
    snapshot.push(
        PackageRecord {
            name: "typescript".to_owned(),
            current_version: "5.5.2".to_owned(),
            latest_version: Some("5.6.3".to_owned()),
            installed_at: Some("2025-02-11T15:10:30Z".to_owned()),
            status: PackageStatus::Current,
            manager: PackageManager::Npm,
        },
    );
    snapshot.push(
        PackageRecord {
            name: "requests".to_owned(),
            current_version: "2.32.3".to_owned(),
            latest_version: None,
            installed_at: None,
            status: PackageStatus::Unknown,
            manager: PackageManager::Pip,
        },
    );
    assert(snapshot@.packages =~= demo_packages());
    snapshot
}

/// The demo inventory, stamped with the current instant in RFC 3339 form, or
/// with the fallback stamp where the instant cannot be so written.
pub fn demo_inventory() -> (snapshot: InventorySnapshot)
    ensures
        snapshot@.generated_at is Some,
        snapshot@.packages == demo_packages(),
{
    match utc_now_rfc3339() {
        Some(stamp) => demo_inventory_at(stamp.as_str()),
        None => demo_inventory_at("2025-10-05T00:00:00Z"),
    }
}

} // verus!
