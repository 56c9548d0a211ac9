//! The inventory model: package records, snapshots and collection summaries.

use crate::error::{collection_error_message, CollectionError};
use vstd::prelude::*;

verus! {

/// Update state of an installed package.
#[derive(Debug, Clone, Copy, PartialEq, Eq, Structural)]
pub enum PackageStatus {
    Current,
    Outdated,
    Unknown,
}

/// The package manager a record comes from.
#[derive(Debug, Clone, Copy, PartialEq, Eq, Structural)]
pub enum PackageManager {
    Brew,
    Npm,
    Pip,
}

/// Canonical representation of a package across supported managers.
#[derive(Debug, Clone, PartialEq, Eq)]
pub struct PackageRecord {
    pub name: String,
    pub current_version: String,
    pub latest_version: Option<String>,
    pub installed_at: Option<String>,
    pub status: PackageStatus,
    pub manager: PackageManager,
}

/// Snapshot-level metadata plus manager inventory.
#[derive(Debug, Clone, PartialEq, Eq)]
pub struct InventorySnapshot {
    pub generated_at: Option<String>,
    pub packages: Vec<PackageRecord>,
}

/// One manager's failure to report, kept beside the data of the others.
#[derive(Debug, Clone, PartialEq, Eq)]
pub struct CollectionWarning {
    pub manager: PackageManager,
    pub message: String,
}

/// Summary returned to UIs, including non-fatal collection warnings.
#[derive(Debug, Clone, PartialEq, Eq)]
pub struct CollectionSummary {
    pub snapshot: InventorySnapshot,
    pub warnings: Vec<CollectionWarning>,
}

/// A package record as mathematics: texts are sequences of characters.
pub struct RecordView {
    pub name: Seq<char>,
    pub current_version: Seq<char>,
    pub latest_version: Option<Seq<char>>,
    pub installed_at: Option<Seq<char>>,
    pub status: PackageStatus,
    pub manager: PackageManager,
}

pub struct SnapshotView {
    pub generated_at: Option<Seq<char>>,
    pub packages: Seq<RecordView>,
}

pub struct WarningView {
    pub manager: PackageManager,
    pub message: Seq<char>,
}

pub struct SummaryView {
    pub snapshot: SnapshotView,
    pub warnings: Seq<WarningView>,
}

impl View for PackageRecord {
    type V = RecordView;

    open spec fn view(&self) -> RecordView {
        RecordView {
            name: self.name@,
            current_version: self.current_version@,
            latest_version: self.latest_version.deep_view(),
            installed_at: self.installed_at.deep_view(),
            status: self.status,
            manager: self.manager,
        }
    }
}

impl DeepView for PackageRecord {
    type V = RecordView;

    open spec fn deep_view(&self) -> RecordView {
        self@
    }
}

impl View for InventorySnapshot {
    type V = SnapshotView;

    open spec fn view(&self) -> SnapshotView {
        SnapshotView {
            generated_at: self.generated_at.deep_view(),
            packages: self.packages.deep_view(),
        }
    }
}

impl View for CollectionWarning {
    type V = WarningView;

    open spec fn view(&self) -> WarningView {
        WarningView { manager: self.manager, message: self.message@ }
    }
}

impl DeepView for CollectionWarning {
    type V = WarningView;

    open spec fn deep_view(&self) -> WarningView {
        self@
    }
}

impl View for CollectionSummary {
    type V = SummaryView;

    open spec fn view(&self) -> SummaryView {
        SummaryView { snapshot: self.snapshot@, warnings: self.warnings.deep_view() }
    }
}

/// How many of `packages` are flagged as outdated.
pub open spec fn count_outdated(packages: Seq<RecordView>) -> nat
    decreases packages.len(),
{
    if packages.len() == 0 {
        0
    } else {
        count_outdated(packages.drop_last()) + if packages.last().status == PackageStatus::Outdated {
            1nat
        } else {
            0nat
        }
    }
}

/// The count of outdated packages is the size of the sub-sequence of records
/// whose status is `Outdated`, and never exceeds the number of records.
pub proof fn lemma_count_outdated_is_filter(packages: Seq<RecordView>)
    ensures
        count_outdated(packages) == packages.filter(
            |r: RecordView| r.status == PackageStatus::Outdated,
        ).len(),
        count_outdated(packages) <= packages.len(),
    decreases packages.len(),
{
    let outdated = |r: RecordView| r.status == PackageStatus::Outdated;
    reveal(Seq::filter);
    if packages.len() > 0 {
        lemma_count_outdated_is_filter(packages.drop_last());
        assert(packages.drop_last().push(packages.last()) =~= packages);
    }
}

impl Default for InventorySnapshot {
    fn default() -> (snapshot: Self)
        ensures
            snapshot@.generated_at is None,
            snapshot@.packages.len() == 0,
    {
        InventorySnapshot { generated_at: None, packages: Vec::new() }
    }
}

impl InventorySnapshot {
    /// Adds a package to the snapshot.
    pub fn push(&mut self, record: PackageRecord)
        ensures
            final(self)@.packages == old(self)@.packages.push(record@),
            final(self)@.generated_at == old(self)@.generated_at,
    {
        self.packages.push(record);
        assert(self@.packages =~= old(self)@.packages.push(record@));
    }

    /// Returns the number of packages flagged as outdated.
    pub fn outdated_count(&self) -> (count: usize)
        ensures
            count == count_outdated(self@.packages),
    {
        let mut count: usize = 0;
        let mut index: usize = 0;
        while index < self.packages.len()
            invariant
                index <= self.packages.len(),
                count <= index,
                count == count_outdated(self@.packages.take(index as int)),
            decreases self.packages.len() - index,
        {
            proof {
                let next = self@.packages.take(index + 1);
                assert(next.drop_last() =~= self@.packages.take(index as int));
                assert(next.last() == self.packages@[index as int]@);
            }
            if self.packages[index].status == PackageStatus::Outdated {
                count = count + 1;
            }
            index = index + 1;
        }
        assert(self@.packages.take(index as int) =~= self@.packages);
        count
    }

    /// Sets the generation timestamp using an ISO-8601 string.
    pub fn set_generated_at(&mut self, iso_timestamp: &str)
        ensures
            final(self)@.generated_at == Some(iso_timestamp@),
            final(self)@.packages == old(self)@.packages,
    {
        self.generated_at = Some(iso_timestamp.to_owned());
    }
}

impl Default for CollectionSummary {
    fn default() -> (summary: Self)
        ensures
            summary@.snapshot.generated_at is None,
            summary@.snapshot.packages.len() == 0,
            summary@.warnings.len() == 0,
    {
        CollectionSummary { snapshot: InventorySnapshot::default(), warnings: Vec::new() }
    }
}

impl CollectionSummary {
    /// A summary of `snapshot` with no warnings yet.
    pub fn new(snapshot: InventorySnapshot) -> (summary: Self)
        ensures
            summary@.snapshot == snapshot@,
            summary@.warnings.len() == 0,
    {
        CollectionSummary { snapshot, warnings: Vec::new() }
    }

    /// Records that `manager` could not be queried, with the error in words.
    pub fn push_warning(&mut self, manager: PackageManager, error: CollectionError)
        ensures
            final(self)@.warnings == old(self)@.warnings.push(
                WarningView { manager, message: collection_error_message(error@) },
            ),
            final(self)@.snapshot == old(self)@.snapshot,
    {
        let warning = CollectionWarning { manager, message: error.message() };
        self.warnings.push(warning);
        assert(self@.warnings =~= old(self)@.warnings.push(warning@));
    }

    /// Appends the records that a manager's probe has yielded.
    pub fn extend_packages(&mut self, records: Vec<PackageRecord>)
        ensures
            final(self)@.snapshot.packages == old(self)@.snapshot.packages + records.deep_view(),
            final(self)@.snapshot.generated_at == old(self)@.snapshot.generated_at,
            final(self)@.warnings == old(self)@.warnings,
    {
        let ghost added = records.deep_view();
        let mut records = records;
        self.snapshot.packages.append(&mut records);
        assert(self@.snapshot.packages =~= old(self)@.snapshot.packages + added);
    }
}

} // verus!
