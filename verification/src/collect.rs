//! The collection pass: the three probes one after the other, each failure
//! kept as a warning beside the records of the others.
//!
//! Running a command is left to the caller. A `Collector` says which command
//! comes next and takes how it ended; when no command is left it holds the
//! summary.

use crate::clock::utc_now_rfc3339;
use crate::error::{collection_error_message, CollectionError};
use crate::model::{
    CollectionSummary, InventorySnapshot, PackageManager, PackageRecord, RecordView, SnapshotView,
    SummaryView, WarningView,
};
use crate::probe::{
    after_check, after_listing, harvest_view, list_command, list_request, outdated_command,
    outdated_request, settle_check, settle_listing, Harvest, Listing, ListingView,
};
use crate::runner::{CommandRequest, Execution, ExecutionView, RequestView};
use crate::table::Entries;
use vstd::prelude::*;

verus! {

/// Where a pass stands.
pub enum StageView {
    /// The list command of this manager comes next.
    Listing(PackageManager),
    /// These packages of this manager are installed; its outdated command
    /// comes next.
    Checking(PackageManager, Entries),
    /// No command is left.
    Done,
}

/// A pass as mathematics: the summary so far and the stage.
pub struct CollectorView {
    pub summary: SummaryView,
    pub stage: StageView,
}

/// The summary before any probe has run.
pub open spec fn empty_summary(generated_at: Option<Seq<char>>) -> SummaryView {
    SummaryView {
        snapshot: SnapshotView { generated_at, packages: Seq::empty() },
        warnings: Seq::empty(),
    }
}

/// The start of a pass: Homebrew's list command comes first.
pub open spec fn start(generated_at: Option<Seq<char>>) -> CollectorView {
    CollectorView {
        summary: empty_summary(generated_at),
        stage: StageView::Listing(PackageManager::Brew),
    }
}

/// The stage after `manager`'s probe: Homebrew, then npm, then pip.
pub open spec fn stage_after(manager: PackageManager) -> StageView {
    match manager {
        PackageManager::Brew => StageView::Listing(PackageManager::Npm),
        PackageManager::Npm => StageView::Listing(PackageManager::Pip),
        PackageManager::Pip => StageView::Done,
    }
}

/// A summary with what `manager`'s probe has yielded: its records at the end
/// of the packages, or one warning with the failure in words.
pub open spec fn absorb(
    summary: SummaryView,
    manager: PackageManager,
    harvest: Harvest,
) -> SummaryView {
    match harvest {
        Ok(records) => SummaryView {
            snapshot: SnapshotView {
                generated_at: summary.snapshot.generated_at,
                packages: summary.snapshot.packages + records,
            },
            warnings: summary.warnings,
        },
        Err(error) => SummaryView {
            snapshot: summary.snapshot,
            warnings: summary.warnings.push(
                WarningView { manager, message: collection_error_message(error) },
            ),
        },
    }
}

/// The command that comes next, if any.
pub open spec fn pending_command(state: CollectorView) -> Option<RequestView> {
    match state.stage {
        StageView::Listing(manager) => Some(list_command(manager)),
        StageView::Checking(manager, _) => Some(outdated_command(manager)),
        StageView::Done => None,
    }
}

/// The pass after the pending command has ended as `execution` says. A pass
/// that is done stays as it is.
pub open spec fn step(state: CollectorView, execution: ExecutionView) -> CollectorView {
    match state.stage {
        StageView::Listing(manager) => match after_listing(manager, execution) {
            ListingView::Settled(harvest) => CollectorView {
                summary: absorb(state.summary, manager, harvest),
                stage: stage_after(manager),
            },
            ListingView::Installed(installed) => CollectorView {
                summary: state.summary,
                stage: StageView::Checking(manager, installed),
            },
        },
        StageView::Checking(manager, installed) => CollectorView {
            summary: absorb(state.summary, manager, after_check(manager, installed, execution)),
            stage: stage_after(manager),
        },
        StageView::Done => state,
    }
}

/// The summary of a pass in which the three probes have yielded these.
pub open spec fn summary_of(
    generated_at: Option<Seq<char>>,
    brew: Harvest,
    npm: Harvest,
    pip: Harvest,
) -> SummaryView {
    let after_brew = absorb(empty_summary(generated_at), PackageManager::Brew, brew);
    let after_npm = absorb(after_brew, PackageManager::Npm, npm);
    absorb(after_npm, PackageManager::Pip, pip)
}

/// The place of a manager in the order of a pass.
pub open spec fn rank(manager: PackageManager) -> int {
    match manager {
        PackageManager::Brew => 0,
        PackageManager::Npm => 1,
        PackageManager::Pip => 2,
    }
}

/// The place of a stage: that of its manager, and beyond all once the pass is
/// done.
pub open spec fn stage_rank(stage: StageView) -> int {
    match stage {
        StageView::Listing(manager) => rank(manager),
        StageView::Checking(manager, _) => rank(manager),
        StageView::Done => 3,
    }
}

/// How many commands a pass may still have to run: two for each manager
/// whose turn is to come, one less once the list command is over.
pub open spec fn commands_left(stage: StageView) -> nat {
    match stage {
        StageView::Listing(manager) => (2 * (3 - rank(manager))) as nat,
        StageView::Checking(manager, _) => (2 * (3 - rank(manager)) - 1) as nat,
        StageView::Done => 0,
    }
}

/// Every one of `records` comes from `manager`.
pub open spec fn all_from(records: Seq<RecordView>, manager: PackageManager) -> bool {
    forall|i: int| 0 <= i < records.len() ==> (#[trigger] records[i]).manager == manager
}

/// What holds of the summary of a pass at every moment: the packages are
/// grouped by manager in the order of the pass; there is at most one warning
/// about a manager, and the warnings are in that order too; a manager that is
/// warned about has no package.
pub open spec fn orderly_summary(summary: SummaryView) -> bool {
    &&& forall|i: int, j: int|
        0 <= i <= j < summary.snapshot.packages.len() ==> rank(
            (#[trigger] summary.snapshot.packages[i]).manager,
        ) <= rank((#[trigger] summary.snapshot.packages[j]).manager)
    &&& forall|i: int, j: int|
        0 <= i < j < summary.warnings.len() ==> rank((#[trigger] summary.warnings[i]).manager)
            < rank((#[trigger] summary.warnings[j]).manager)
    &&& forall|i: int, j: int|
        0 <= i < summary.warnings.len() && 0 <= j < summary.snapshot.packages.len() ==> (
        #[trigger] summary.warnings[i]).manager != (#[trigger] summary.snapshot.packages[j]).manager
}

/// What holds of a pass at every moment: its summary is orderly and speaks
/// only of managers whose turn is over.
pub open spec fn orderly(state: CollectorView) -> bool {
    &&& orderly_summary(state.summary)
    &&& forall|i: int|
        0 <= i < state.summary.snapshot.packages.len() ==> rank(
            (#[trigger] state.summary.snapshot.packages[i]).manager,
        ) < stage_rank(state.stage)
    &&& forall|i: int|
        0 <= i < state.summary.warnings.len() ==> rank(
            (#[trigger] state.summary.warnings[i]).manager,
        ) < stage_rank(state.stage)
}

/// Every record that a probe yields carries the probe's manager.
pub proof fn lemma_probe_records_from_manager(
    manager: PackageManager,
    installed: Entries,
    listing: ExecutionView,
    check: ExecutionView,
)
    ensures
        after_listing(manager, listing) matches ListingView::Settled(Ok(records)) ==> all_from(
            records,
            manager,
        ),
        after_check(manager, installed, check) matches Ok(records) ==> all_from(records, manager),
{
}

/// Absorbing the harvest of the manager whose turn it is keeps a pass orderly.
pub proof fn lemma_absorb_keeps_order(
    summary: SummaryView,
    manager: PackageManager,
    harvest: Harvest,
)
    requires
        orderly(CollectorView { summary, stage: StageView::Listing(manager) }),
        harvest matches Ok(records) ==> all_from(records, manager),
    ensures
        orderly(
            CollectorView { summary: absorb(summary, manager, harvest), stage: stage_after(manager) },
        ),
{
    let after = absorb(summary, manager, harvest);
    let before = summary.snapshot.packages.len();
    match harvest {
        Ok(records) => {
            assert forall|i: int| 0 <= i < after.snapshot.packages.len() implies rank(
                (#[trigger] after.snapshot.packages[i]).manager,
            ) <= rank(manager) && (i < before ==> after.snapshot.packages[i]
                == summary.snapshot.packages[i]) && (i >= before
                ==> after.snapshot.packages[i].manager == manager) by {
                if i >= before {
                    assert(after.snapshot.packages[i] == records[i - before]);
                }
            }
        },
        Err(_) => {
            assert forall|i: int| 0 <= i < after.warnings.len() implies rank(
                (#[trigger] after.warnings[i]).manager,
            ) <= rank(manager) && (i < summary.warnings.len() ==> after.warnings[i]
                == summary.warnings[i]) && (i >= summary.warnings.len()
                ==> after.warnings[i].manager == manager) by {}
        },
    }
}

/// Every step of a pass that is not done brings its end nearer: a pass is
/// over after six commands at most.
pub proof fn lemma_step_makes_progress(state: CollectorView, execution: ExecutionView)
    requires
        !(state.stage is Done),
    ensures
        commands_left(step(state, execution).stage) < commands_left(state.stage),
        commands_left(state.stage) <= 6,
        commands_left(step(state, execution).stage) == 0 <==> step(state, execution).stage is Done,
{
}

/// A pass is orderly at its start.
pub proof fn lemma_start_is_orderly(generated_at: Option<Seq<char>>)
    ensures
        orderly(start(generated_at)),
{
}

/// A step keeps a pass orderly.
pub proof fn lemma_step_keeps_order(state: CollectorView, execution: ExecutionView)
    requires
        orderly(state),
    ensures
        orderly(step(state, execution)),
{
    match state.stage {
        StageView::Listing(manager) => {
            lemma_probe_records_from_manager(manager, Seq::empty(), execution, execution);
            match after_listing(manager, execution) {
                ListingView::Settled(harvest) => {
                    lemma_absorb_keeps_order(state.summary, manager, harvest);
                },
                ListingView::Installed(_) => {},
            }
        },
        StageView::Checking(manager, installed) => {
            lemma_probe_records_from_manager(manager, installed, execution, execution);
            assert(orderly(
                CollectorView { summary: state.summary, stage: StageView::Listing(manager) },
            ));
            lemma_absorb_keeps_order(
                state.summary,
                manager,
                after_check(manager, installed, execution),
            );
        },
        StageView::Done => {},
    }
}

enum Stage {
    Listing(PackageManager),
    Checking(PackageManager, Vec<(String, String)>),
    Done,
}

/// A collection pass under way.
pub struct Collector {
    summary: CollectionSummary,
    stage: Stage,
}

impl View for Collector {
    type V = CollectorView;

    closed spec fn view(&self) -> CollectorView {
        CollectorView { summary: self.summary@, stage: stage_view(self.stage) }
    }
}

spec fn stage_view(stage: Stage) -> StageView {
    match stage {
        Stage::Listing(manager) => StageView::Listing(manager),
        Stage::Checking(manager, installed) => StageView::Checking(manager, installed.deep_view()),
        Stage::Done => StageView::Done,
    }
}

impl Collector {
    #[verifier::type_invariant]
    spec fn in_order(self) -> bool {
        orderly(self@)
    }

    /// A pass that has run nothing yet, stamped with `generated_at`.
    pub fn new(generated_at: Option<String>) -> (collector: Self)
        ensures
            collector@ == start(generated_at.deep_view()),
    {
        let snapshot = InventorySnapshot { generated_at, packages: Vec::new() };
        let summary = CollectionSummary::new(snapshot);
        assert(summary@.snapshot.packages =~= Seq::empty());
        assert(summary@.warnings =~= Seq::empty());
        Collector { summary, stage: Stage::Listing(PackageManager::Brew) }
    }

    /// A pass that has run nothing yet, stamped with the current instant in
    /// RFC 3339 form, or not stamped where the instant cannot be so written.
    pub fn begin() -> (collector: Self)
        ensures
            collector@.stage == StageView::Listing(PackageManager::Brew),
            collector@.summary.snapshot.packages.len() == 0,
            collector@.summary.warnings.len() == 0,
    {
        Collector::new(utc_now_rfc3339())
    }

    /// The command to run next; none where the pass is done.
    pub fn pending(&self) -> (request: Option<CommandRequest>)
        ensures
            match request {
                Some(command) => pending_command(self@) == Some(command@),
                None => pending_command(self@) is None,
            },
    {
        match &self.stage {
            Stage::Listing(manager) => Some(list_request(*manager)),
            Stage::Checking(manager, _) => Some(outdated_request(*manager)),
            Stage::Done => None,
        }
    }

    /// Whether no command is left.
    pub fn is_done(&self) -> (done: bool)
        ensures
            done == (self@.stage is Done),
    {
        match &self.stage {
            Stage::Done => true,
            _ => false,
        }
    }

    /// Takes how the pending command has ended.
    pub fn advance(&mut self, execution: Execution)
        ensures
            final(self)@ == step(old(self)@, execution@),
            orderly(final(self)@),
    {
        proof {
            use_type_invariant(&*self);
            lemma_step_keeps_order(self@, execution@);
        }
        let mut taken = Collector::new(None);
        core::mem::swap(self, &mut taken);
        let mut summary = taken.summary;
        let stage = match taken.stage {
            Stage::Listing(manager) => match settle_listing(manager, execution) {
                Listing::Settled(harvest) => {
                    absorb_into(&mut summary, manager, harvest);
                    stage_following(manager)
                },
                Listing::Installed(installed) => Stage::Checking(manager, installed),
            },
            Stage::Checking(manager, installed) => {
                let harvest = settle_check(manager, &installed, execution);
                absorb_into(&mut summary, manager, harvest);
                stage_following(manager)
            },
            Stage::Done => Stage::Done,
        };
        *self = Collector { summary, stage };
    }

    /// The summary so far.
    pub fn summary(&self) -> (summary: &CollectionSummary)
        ensures
            summary@ == self@.summary,
            orderly_summary(summary@),
    {
        proof {
            use_type_invariant(self);
        }
        &self.summary
    }

    /// The summary of the pass.
    pub fn finish(self) -> (summary: CollectionSummary)
        ensures
            summary@ == self@.summary,
            orderly_summary(summary@),
    {
        proof {
            use_type_invariant(&self);
        }
        self.summary
    }
}

/// The summary of a pass whose probes have been run elsewhere, in any order or
/// side by side: the records of Homebrew first, then those of npm, then those
/// of pip, and the warnings in the same order.
pub fn assemble(
    generated_at: Option<String>,
    brew: Result<Vec<PackageRecord>, CollectionError>,
    npm: Result<Vec<PackageRecord>, CollectionError>,
    pip: Result<Vec<PackageRecord>, CollectionError>,
) -> (summary: CollectionSummary)
    ensures
        summary@ == summary_of(
            generated_at.deep_view(),
            harvest_view(brew),
            harvest_view(npm),
            harvest_view(pip),
        ),
{
    let snapshot = InventorySnapshot { generated_at, packages: Vec::new() };
    let mut summary = CollectionSummary::new(snapshot);
    assert(summary@.snapshot.packages =~= Seq::empty());
    assert(summary@.warnings =~= Seq::empty());
    absorb_into(&mut summary, PackageManager::Brew, brew);
    absorb_into(&mut summary, PackageManager::Npm, npm);
    absorb_into(&mut summary, PackageManager::Pip, pip);
    summary
}

/// The stage after `manager`'s probe.
fn stage_following(manager: PackageManager) -> (stage: Stage)
    ensures
        stage_view(stage) == stage_after(manager),
{
    match manager {
        PackageManager::Brew => Stage::Listing(PackageManager::Npm),
        PackageManager::Npm => Stage::Listing(PackageManager::Pip),
        PackageManager::Pip => Stage::Done,
    }
}

/// Takes what `manager`'s probe has yielded into `summary`.
fn absorb_into(
    summary: &mut CollectionSummary,
    manager: PackageManager,
    harvest: Result<Vec<PackageRecord>, CollectionError>,
)
    ensures
        final(summary)@ == absorb(old(summary)@, manager, harvest_view(harvest)),
{
    match harvest {
        Ok(records) => {
            summary.extend_packages(records);
        },
        Err(error) => {
            summary.push_warning(manager, error);
        },
    }
}

} // verus!
