//! What holds of every collection pass.

use crate::collect::{all_from, rank, start, step, summary_of, CollectorView, StageView};
use crate::error::{collection_error_message, CollectionErrorView};
use crate::model::{
    count_outdated, PackageManager, PackageStatus, RecordView, SnapshotView, SummaryView,
    WarningView,
};
use crate::probe::{
    latest_of, list_command, outdated_command, probe_harvest, record_for, records_for, Harvest,
};
use crate::runner::{command_outcome, ExecutionView};
use crate::table::{has_key, lookup, Entries};
use crate::text::is_blank;
use vstd::prelude::*;
use vstd::utf8::valid_utf8;

verus! {

/// How the six commands of a pass end. A probe that needs no outdated command
/// never looks at its `check`.
pub struct Runs {
    pub brew_list: ExecutionView,
    pub brew_check: ExecutionView,
    pub npm_list: ExecutionView,
    pub npm_check: ExecutionView,
    pub pip_list: ExecutionView,
    pub pip_check: ExecutionView,
}

impl Runs {
    /// How `manager`'s list command ends.
    pub open spec fn listing(self, manager: PackageManager) -> ExecutionView {
        match manager {
            PackageManager::Brew => self.brew_list,
            PackageManager::Npm => self.npm_list,
            PackageManager::Pip => self.pip_list,
        }
    }

    /// How `manager`'s outdated command ends.
    pub open spec fn check(self, manager: PackageManager) -> ExecutionView {
        match manager {
            PackageManager::Brew => self.brew_check,
            PackageManager::Npm => self.npm_check,
            PackageManager::Pip => self.pip_check,
        }
    }

    /// What `manager`'s probe yields.
    pub open spec fn harvest(self, manager: PackageManager) -> Harvest {
        probe_harvest(manager, self.listing(manager), self.check(manager))
    }
}

/// The summary of the pass whose commands end as `runs` says.
pub open spec fn pass_summary(generated_at: Option<Seq<char>>, runs: Runs) -> SummaryView {
    summary_of(
        generated_at,
        runs.harvest(PackageManager::Brew),
        runs.harvest(PackageManager::Npm),
        runs.harvest(PackageManager::Pip),
    )
}

/// A pass after the probe whose turn it is: its list command ends as
/// `listing` says and, if it comes to that, its outdated command as `check`
/// says.
pub open spec fn run_probe(
    state: CollectorView,
    listing: ExecutionView,
    check: ExecutionView,
) -> CollectorView {
    let listed = step(state, listing);
    if listed.stage is Checking {
        step(listed, check)
    } else {
        listed
    }
}

/// The records of a harvest; none where the probe failed.
pub open spec fn harvested(harvest: Harvest) -> Seq<RecordView> {
    match harvest {
        Ok(records) => records,
        Err(_) => Seq::empty(),
    }
}

/// The warning of a harvest; none where the probe succeeded.
pub open spec fn warned(manager: PackageManager, harvest: Harvest) -> Seq<WarningView> {
    match harvest {
        Ok(_) => Seq::empty(),
        Err(error) => seq![WarningView { manager, message: collection_error_message(error) }],
    }
}

/// How many of `packages` come from `manager`.
pub open spec fn packages_from(packages: Seq<RecordView>, manager: PackageManager) -> nat
    decreases packages.len(),
{
    if packages.len() == 0 {
        0
    } else {
        packages_from(packages.drop_last(), manager) + if packages.last().manager == manager {
            1nat
        } else {
            0nat
        }
    }
}

/// How many of `warnings` are about `manager`.
pub open spec fn warnings_about(warnings: Seq<WarningView>, manager: PackageManager) -> nat
    decreases warnings.len(),
{
    if warnings.len() == 0 {
        0
    } else {
        warnings_about(warnings.drop_last(), manager) + if warnings.last().manager == manager {
            1nat
        } else {
            0nat
        }
    }
}

/// Driving a collector through the three probes, command by command, ends
/// with no command left and with the summary of the pass.
pub proof fn lemma_pass_yields_summary(generated_at: Option<Seq<char>>, runs: Runs)
    ensures
        run_probe(
            run_probe(
                run_probe(start(generated_at), runs.brew_list, runs.brew_check),
                runs.npm_list,
                runs.npm_check,
            ),
            runs.pip_list,
            runs.pip_check,
        ) == (CollectorView { summary: pass_summary(generated_at, runs), stage: StageView::Done }),
{
}

/// The packages of a summary are the records of Homebrew, then those of npm,
/// then those of pip; its warnings are those of the probes that failed, in the
/// same order; its stamp is the one given.
pub proof fn lemma_summary_shape(
    generated_at: Option<Seq<char>>,
    brew: Harvest,
    npm: Harvest,
    pip: Harvest,
)
    ensures
        summary_of(generated_at, brew, npm, pip).snapshot.generated_at == generated_at,
        summary_of(generated_at, brew, npm, pip).snapshot.packages == harvested(brew) + harvested(
            npm,
        ) + harvested(pip),
        summary_of(generated_at, brew, npm, pip).warnings == warned(PackageManager::Brew, brew)
            + warned(PackageManager::Npm, npm) + warned(PackageManager::Pip, pip),
{
    let summary = summary_of(generated_at, brew, npm, pip);
    assert(summary.snapshot.packages =~= harvested(brew) + harvested(npm) + harvested(pip));
    assert(summary.warnings =~= warned(PackageManager::Brew, brew) + warned(
        PackageManager::Npm,
        npm,
    ) + warned(PackageManager::Pip, pip));
}

/// Every record of a probe carries the probe's manager.
pub proof fn lemma_harvest_from_manager(
    manager: PackageManager,
    listing: ExecutionView,
    check: ExecutionView,
)
    ensures
        all_from(harvested(probe_harvest(manager, listing, check)), manager),
{
}

/// A record is outdated exactly where the manager reports a latest version
/// that differs from the installed one; else it is current.
pub proof fn lemma_outdated_iff_newer(
    manager: PackageManager,
    name: Seq<char>,
    current: Seq<char>,
    latest: Option<Seq<char>>,
)
    ensures
        record_for(manager, name, current, latest).status == PackageStatus::Outdated <==> (latest
            is Some && latest->0 != current),
        record_for(manager, name, current, latest).status != PackageStatus::Outdated
            ==> record_for(manager, name, current, latest).status == PackageStatus::Current,
        record_for(manager, name, current, latest).installed_at is None,
{
}

proof fn lemma_packages_from_concat(
    front: Seq<RecordView>,
    back: Seq<RecordView>,
    manager: PackageManager,
)
    ensures
        packages_from(front + back, manager) == packages_from(front, manager) + packages_from(
            back,
            manager,
        ),
    decreases back.len(),
{
    if back.len() == 0 {
        assert(front + back =~= front);
    } else {
        lemma_packages_from_concat(front, back.drop_last(), manager);
        assert((front + back).drop_last() =~= front + back.drop_last());
    }
}

proof fn lemma_packages_from_others(
    records: Seq<RecordView>,
    from: PackageManager,
    manager: PackageManager,
)
    requires
        all_from(records, from),
        from != manager,
    ensures
        packages_from(records, manager) == 0,
    decreases records.len(),
{
    if records.len() > 0 {
        assert(records.last() == records[records.len() - 1]);
        lemma_packages_from_others(records.drop_last(), from, manager);
    }
}

proof fn lemma_warnings_about_concat(
    front: Seq<WarningView>,
    back: Seq<WarningView>,
    manager: PackageManager,
)
    ensures
        warnings_about(front + back, manager) == warnings_about(front, manager) + warnings_about(
            back,
            manager,
        ),
    decreases back.len(),
{
    if back.len() == 0 {
        assert(front + back =~= front);
    } else {
        lemma_warnings_about_concat(front, back.drop_last(), manager);
        assert((front + back).drop_last() =~= front + back.drop_last());
    }
}

proof fn lemma_warned_about(from: PackageManager, harvest: Harvest, manager: PackageManager)
    ensures
        warnings_about(warned(from, harvest), manager) == if from == manager && harvest is Err {
            1nat
        } else {
            0nat
        },
{
    let warnings = warned(from, harvest);
    if warnings.len() > 0 {
        assert(warnings.drop_last() =~= Seq::<WarningView>::empty());
        assert(warnings.last().manager == from);
        assert(warnings_about(warnings.drop_last(), manager) == 0);
    }
}

/// A summary warns about a manager once where its probe failed, and not at
/// all where it succeeded.
pub proof fn lemma_warning_iff_failure(
    generated_at: Option<Seq<char>>,
    runs: Runs,
    manager: PackageManager,
)
    ensures
        warnings_about(pass_summary(generated_at, runs).warnings, manager) == if runs.harvest(
            manager,
        ) is Err {
            1nat
        } else {
            0nat
        },
{
    let brew = runs.harvest(PackageManager::Brew);
    let npm = runs.harvest(PackageManager::Npm);
    let pip = runs.harvest(PackageManager::Pip);
    lemma_summary_shape(generated_at, brew, npm, pip);
    let first = warned(PackageManager::Brew, brew);
    let second = warned(PackageManager::Npm, npm);
    let third = warned(PackageManager::Pip, pip);
    lemma_warnings_about_concat(first + second, third, manager);
    lemma_warnings_about_concat(first, second, manager);
    lemma_warned_about(PackageManager::Brew, brew, manager);
    lemma_warned_about(PackageManager::Npm, npm, manager);
    lemma_warned_about(PackageManager::Pip, pip, manager);
}

/// Where a manager's list command fails, the summary holds no record of that
/// manager and exactly one warning about it, and the records of the other
/// managers are what they would be in any case.
pub proof fn lemma_failed_listing(
    generated_at: Option<Seq<char>>,
    runs: Runs,
    manager: PackageManager,
)
    requires
        command_outcome(list_command(manager), runs.listing(manager)) is Err,
    ensures
        runs.harvest(manager) is Err,
        packages_from(pass_summary(generated_at, runs).snapshot.packages, manager) == 0,
        warnings_about(pass_summary(generated_at, runs).warnings, manager) == 1,
        pass_summary(generated_at, runs).snapshot.packages == harvested(
            runs.harvest(PackageManager::Brew),
        ) + harvested(runs.harvest(PackageManager::Npm)) + harvested(
            runs.harvest(PackageManager::Pip),
        ),
{
    let brew = runs.harvest(PackageManager::Brew);
    let npm = runs.harvest(PackageManager::Npm);
    let pip = runs.harvest(PackageManager::Pip);
    lemma_summary_shape(generated_at, brew, npm, pip);
    lemma_warning_iff_failure(generated_at, runs, manager);
    lemma_packages_from_concat(harvested(brew) + harvested(npm), harvested(pip), manager);
    lemma_packages_from_concat(harvested(brew), harvested(npm), manager);
    lemma_harvest_from_manager(PackageManager::Brew, runs.brew_list, runs.brew_check);
    lemma_harvest_from_manager(PackageManager::Npm, runs.npm_list, runs.npm_check);
    lemma_harvest_from_manager(PackageManager::Pip, runs.pip_list, runs.pip_check);
    if manager != PackageManager::Brew {
        lemma_packages_from_others(harvested(brew), PackageManager::Brew, manager);
    }
    if manager != PackageManager::Npm {
        lemma_packages_from_others(harvested(npm), PackageManager::Npm, manager);
    }
    if manager != PackageManager::Pip {
        lemma_packages_from_others(harvested(pip), PackageManager::Pip, manager);
    }
}

/// The packages of a summary are grouped by manager, Homebrew first, then
/// npm, then pip.
pub proof fn lemma_grouped_by_manager(generated_at: Option<Seq<char>>, runs: Runs)
    ensures
        forall|i: int, j: int|
            0 <= i <= j < pass_summary(generated_at, runs).snapshot.packages.len() ==> rank(
                (#[trigger] pass_summary(generated_at, runs).snapshot.packages[i]).manager,
            ) <= rank((#[trigger] pass_summary(generated_at, runs).snapshot.packages[j]).manager),
{
    let brew = runs.harvest(PackageManager::Brew);
    let npm = runs.harvest(PackageManager::Npm);
    let pip = runs.harvest(PackageManager::Pip);
    lemma_summary_shape(generated_at, brew, npm, pip);
    lemma_harvest_from_manager(PackageManager::Brew, runs.brew_list, runs.brew_check);
    lemma_harvest_from_manager(PackageManager::Npm, runs.npm_list, runs.npm_check);
    lemma_harvest_from_manager(PackageManager::Pip, runs.pip_list, runs.pip_check);
    let packages = pass_summary(generated_at, runs).snapshot.packages;
    let first = harvested(brew).len();
    let second = first + harvested(npm).len();
    assert forall|i: int| 0 <= i < packages.len() implies rank((#[trigger] packages[i]).manager)
        == if i < first {
        0int
    } else if i < second {
        1int
    } else {
        2int
    } by {
        if i < first {
            assert(packages[i] == harvested(brew)[i]);
        } else if i < second {
            assert(packages[i] == harvested(npm)[i - first]);
        } else {
            assert(packages[i] == harvested(pip)[i - second]);
        }
    }
}

/// Two passes whose commands end alike yield the same packages and the same
/// warnings, whatever their stamps.
pub proof fn lemma_same_runs_same_inventory(
    first_stamp: Option<Seq<char>>,
    second_stamp: Option<Seq<char>>,
    runs: Runs,
)
    ensures
        pass_summary(first_stamp, runs).snapshot.packages == pass_summary(
            second_stamp,
            runs,
        ).snapshot.packages,
        pass_summary(first_stamp, runs).warnings == pass_summary(second_stamp, runs).warnings,
        pass_summary(first_stamp, runs).snapshot.generated_at == first_stamp,
{
    let brew = runs.harvest(PackageManager::Brew);
    let npm = runs.harvest(PackageManager::Npm);
    let pip = runs.harvest(PackageManager::Pip);
    lemma_summary_shape(first_stamp, brew, npm, pip);
    lemma_summary_shape(second_stamp, brew, npm, pip);
}

/// Blank output of a manager's outdated command means that nothing is
/// outdated: it is no failure, and every installed package is current, with
/// no latest version.
pub proof fn lemma_blank_means_nothing_outdated(
    manager: PackageManager,
    installed: Entries,
    stdout: Seq<char>,
)
    requires
        is_blank(stdout),
    ensures
        latest_of(manager, stdout) == Ok::<Entries, CollectionErrorView>(Seq::empty()),
        records_for(manager, installed, Seq::empty()).len() == installed.len(),
        forall|i: int|
            0 <= i < installed.len() ==> {
                &&& (#[trigger] records_for(manager, installed, Seq::empty())[i]).status
                    == PackageStatus::Current
                &&& records_for(manager, installed, Seq::empty())[i].latest_version is None
            },
{
    let none: Entries = Seq::empty();
    assert forall|key: Seq<char>| !has_key(none, key) by {}
}

/// How many of the installed packages have a latest version on record that
/// differs from the installed one.
pub open spec fn count_newer(installed: Entries, latest: Entries) -> nat
    decreases installed.len(),
{
    if installed.len() == 0 {
        0
    } else {
        let found = lookup(latest, installed.last().0);
        count_newer(installed.drop_last(), latest) + if found is Some && found->0
            != installed.last().1 {
            1nat
        } else {
            0nat
        }
    }
}

/// The outdated records of a probe are as many as the installed packages for
/// which the manager reports a version that differs from the installed one.
pub proof fn lemma_outdated_count_of_probe(
    manager: PackageManager,
    installed: Entries,
    latest: Entries,
)
    ensures
        count_outdated(records_for(manager, installed, latest)) == count_newer(installed, latest),
    decreases installed.len(),
{
    if installed.len() > 0 {
        lemma_outdated_count_of_probe(manager, installed.drop_last(), latest);
        assert(records_for(manager, installed, latest).drop_last() =~= records_for(
            manager,
            installed.drop_last(),
            latest,
        ));
    }
}

/// A pass with another stamp, and all else as it is.
pub open spec fn restamped(state: CollectorView, stamp: Option<Seq<char>>) -> CollectorView {
    CollectorView {
        summary: SummaryView {
            snapshot: SnapshotView {
                generated_at: stamp,
                packages: state.summary.snapshot.packages,
            },
            warnings: state.summary.warnings,
        },
        stage: state.stage,
    }
}

/// A step neither reads nor changes the stamp: a pass run twice over the same
/// output goes through the same states, but for the stamp.
pub proof fn lemma_step_ignores_stamp(
    state: CollectorView,
    stamp: Option<Seq<char>>,
    execution: ExecutionView,
)
    ensures
        step(restamped(state, stamp), execution) == restamped(step(state, execution), stamp),
        step(state, execution).summary.snapshot.generated_at == state.summary.snapshot.generated_at,
{
}

/// npm's outdated command counts as successful where it ends with exit code 0
/// or with exit code 1, whatever it has written, and with no other exit code.
pub proof fn lemma_npm_outdated_exit_codes(stdout: Seq<u8>, stderr: Seq<u8>, code: Option<i32>)
    requires
        valid_utf8(stdout),
        valid_utf8(stderr),
    ensures
        command_outcome(
            outdated_command(PackageManager::Npm),
            ExecutionView::Finished { stdout, stderr, code },
        ) is Ok <==> (code == Some(0i32) || code == Some(1i32)),
{
    let allowed = seq![0i32, 1i32];
    assert(allowed[0] == 0i32 && allowed[1] == 1i32);
}

} // verus!
