//! What the three probes share: the commands to run, gathering name/version
//! pairs from the items of a document, turning installed packages into
//! records, and the two steps of a probe.

use crate::brew;
use crate::error::{CollectionError, CollectionErrorView};
use crate::model::{PackageManager, PackageRecord, PackageStatus, RecordView};
use crate::npm;
use crate::pip;
use crate::runner::{
    command_outcome, ensure_success, CommandRequest, Execution, ExecutionView, RequestView,
};
use crate::table::{lookup, Entries, VersionTable};
use vstd::prelude::*;

verus! {

/// What one item of a document contributes: a name/version pair, nothing, or
/// the failure of the whole document.
pub type Yield = Result<Option<(Seq<char>, Seq<char>)>, Seq<char>>;

/// The pairs that `items` contribute, in order; the first failure among them
/// where there is one.
pub open spec fn gather<T>(items: Seq<T>, each: spec_fn(T) -> Yield) -> Result<Entries, Seq<char>>
    decreases items.len(),
{
    if items.len() == 0 {
        Ok(Seq::empty())
    } else {
        match gather(items.drop_last(), each) {
            Err(failure) => Err(failure),
            Ok(pairs) => match each(items.last()) {
                Err(failure) => Err(failure),
                Ok(Some(pair)) => Ok(pairs.push(pair)),
                Ok(None) => Ok(pairs),
            },
        }
    }
}

/// A failure among the first `k` items is the failure of all.
pub proof fn lemma_gather_prefix_failure<T>(items: Seq<T>, each: spec_fn(T) -> Yield, k: int)
    requires
        0 <= k <= items.len(),
        gather(items.take(k), each) is Err,
    ensures
        gather(items, each) == gather(items.take(k), each),
    decreases items.len() - k,
{
    if k < items.len() {
        assert(items.take(k + 1).drop_last() =~= items.take(k));
        lemma_gather_prefix_failure(items, each, k + 1);
    } else {
        assert(items.take(k) =~= items);
    }
}

/// An exec yield as mathematics.
pub open spec fn yield_view(found: Result<Option<(String, String)>, String>) -> Yield {
    match found {
        Ok(Some(pair)) => Ok(Some((pair.0@, pair.1@))),
        Ok(None) => Ok(None),
        Err(message) => Err(message@),
    }
}

/// The record of an installed package, given the latest version that the
/// manager reports for it, if any: outdated where that version differs from the
/// installed one.
pub open spec fn record_for(
    manager: PackageManager,
    name: Seq<char>,
    current: Seq<char>,
    latest: Option<Seq<char>>,
) -> RecordView {
    RecordView {
        name,
        current_version: current,
        latest_version: latest,
        installed_at: None,
        status: if latest is Some && latest->0 != current {
            PackageStatus::Outdated
        } else {
            PackageStatus::Current
        },
        manager,
    }
}

/// One record for each installed package, in order.
pub open spec fn records_for(manager: PackageManager, installed: Entries, latest: Entries) -> Seq<
    RecordView,
> {
    Seq::new(
        installed.len(),
        |i: int| record_for(manager, installed[i].0, installed[i].1, lookup(latest, installed[i].0)),
    )
}

/// One record for each installed package, in order, with the latest version
/// that `latest` holds for its name.
pub fn build_records(
    manager: PackageManager,
    installed: &Vec<(String, String)>,
    latest: &VersionTable,
) -> (records: Vec<PackageRecord>)
    ensures
        records.deep_view() == records_for(manager, installed.deep_view(), latest@),
{
    let mut records: Vec<PackageRecord> = Vec::new();
    let mut index: usize = 0;
    while index < installed.len()
        invariant
            index <= installed.len(),
            records.len() == index,
            forall|i: int|
                0 <= i < index ==> (#[trigger] records@[i])@ == records_for(
                    manager,
                    installed.deep_view(),
                    latest@,
                )[i],
        decreases installed.len() - index,
    {
        let name = installed[index].0.clone();
        let current_version = installed[index].1.clone();
        let latest_version = match latest.get(name.as_str()) {
            Some(version) => Some(version.clone()),
            None => None,
        };
        let status = match &latest_version {
            Some(version) => if *version == current_version {
                PackageStatus::Current
            } else {
                PackageStatus::Outdated
            },
            None => PackageStatus::Current,
        };
        let record = PackageRecord {
            name,
            current_version,
            latest_version,
            installed_at: None,
            status,
            manager,
        };
        assert(record@ == records_for(manager, installed.deep_view(), latest@)[index as int]);
        records.push(record);
        index = index + 1;
    }
    assert(records.deep_view() =~= records_for(manager, installed.deep_view(), latest@));
    records
}

/// The command that lists what a manager has installed.
pub open spec fn list_command(manager: PackageManager) -> RequestView {
    match manager {
        PackageManager::Brew => RequestView {
            program: "brew"@,
            args: seq!["list"@, "--versions"@],
            allowed_exit_codes: None,
        },
        PackageManager::Npm => RequestView {
            program: "npm"@,
            args: seq!["ls"@, "-g"@, "--depth=0"@, "--json"@],
            allowed_exit_codes: None,
        },
        PackageManager::Pip => RequestView {
            program: "pip"@,
            args: seq!["list"@, "--format=json"@],
            allowed_exit_codes: None,
        },
    }
}

/// The command that reports what a manager holds outdated. npm ends it with
/// exit code 1 where something is outdated, which counts as success.
pub open spec fn outdated_command(manager: PackageManager) -> RequestView {
    match manager {
        PackageManager::Brew => RequestView {
            program: "brew"@,
            args: seq!["outdated"@, "--json=v2"@],
            allowed_exit_codes: None,
        },
        PackageManager::Npm => RequestView {
            program: "npm"@,
            args: seq!["outdated"@, "-g"@, "--json"@],
            allowed_exit_codes: Some(seq![0i32, 1i32]),
        },
        PackageManager::Pip => RequestView {
            program: "pip"@,
            args: seq!["list"@, "--outdated"@, "--format=json"@],
            allowed_exit_codes: None,
        },
    }
}

/// The installed packages that the output of a manager's list command names.
pub open spec fn installed_of(manager: PackageManager, stdout: Seq<char>) -> Result<
    Entries,
    CollectionErrorView,
> {
    match manager {
        PackageManager::Brew => Ok(brew::installed_formulae(stdout)),
        PackageManager::Npm => npm::installed_packages(stdout),
        PackageManager::Pip => pip::installed_packages(stdout),
    }
}

/// The latest versions that the output of a manager's outdated command
/// reports.
pub open spec fn latest_of(manager: PackageManager, stdout: Seq<char>) -> Result<
    Entries,
    CollectionErrorView,
> {
    match manager {
        PackageManager::Brew => brew::outdated_formulae(stdout),
        PackageManager::Npm => npm::outdated_packages(stdout),
        PackageManager::Pip => pip::outdated_packages(stdout),
    }
}

/// What a probe yields: its records, or why it has none.
pub type Harvest = Result<Seq<RecordView>, CollectionErrorView>;

/// Where a probe stands once its list command has ended.
pub enum ListingView {
    /// The probe is over.
    Settled(Harvest),
    /// These packages are installed; the outdated command comes next.
    Installed(Entries),
}

/// Where a probe stands once its list command has ended as `execution` says:
/// over with the failure of the command or of its output, over with no
/// record where nothing is installed, else waiting for the outdated command.
pub open spec fn after_listing(manager: PackageManager, execution: ExecutionView) -> ListingView {
    match command_outcome(list_command(manager), execution) {
        Err(error) => ListingView::Settled(Err(error)),
        Ok(result) => match installed_of(manager, result.stdout) {
            Err(error) => ListingView::Settled(Err(error)),
            Ok(installed) => if installed.len() == 0 {
                ListingView::Settled(Ok(Seq::empty()))
            } else {
                ListingView::Installed(installed)
            },
        },
    }
}

/// What a probe yields once its outdated command has ended as `execution`
/// says.
pub open spec fn after_check(
    manager: PackageManager,
    installed: Entries,
    execution: ExecutionView,
) -> Harvest {
    match command_outcome(outdated_command(manager), execution) {
        Err(error) => Err(error),
        Ok(result) => match latest_of(manager, result.stdout) {
            Err(error) => Err(error),
            Ok(latest) => Ok(records_for(manager, installed, latest)),
        },
    }
}

/// What a probe yields where its list command ends as `listing` says and its
/// outdated command, if it comes to that, as `check` says.
pub open spec fn probe_harvest(
    manager: PackageManager,
    listing: ExecutionView,
    check: ExecutionView,
) -> Harvest {
    match after_listing(manager, listing) {
        ListingView::Settled(harvest) => harvest,
        ListingView::Installed(installed) => after_check(manager, installed, check),
    }
}

fn text(literal: &str) -> (owned: String)
    ensures
        owned@ == literal@,
{
    literal.to_owned()
}

/// The command that lists what `manager` has installed.
pub fn list_request(manager: PackageManager) -> (request: CommandRequest)
    ensures
        request@ == list_command(manager),
{
    let mut args: Vec<String> = Vec::new();
    let program = match manager {
        PackageManager::Brew => {
            args.push(text("list"));
            args.push(text("--versions"));
            text("brew")
        },
        PackageManager::Npm => {
            args.push(text("ls"));
            args.push(text("-g"));
            args.push(text("--depth=0"));
            args.push(text("--json"));
            text("npm")
        },
        PackageManager::Pip => {
            args.push(text("list"));
            args.push(text("--format=json"));
            text("pip")
        },
    };
    assert(args.deep_view() =~= list_command(manager).args);
    CommandRequest { program, args, allowed_exit_codes: None }
}

/// The command that reports what `manager` holds outdated.
pub fn outdated_request(manager: PackageManager) -> (request: CommandRequest)
    ensures
        request@ == outdated_command(manager),
{
    let mut args: Vec<String> = Vec::new();
    match manager {
        PackageManager::Brew => {
            args.push(text("outdated"));
            args.push(text("--json=v2"));
            assert(args.deep_view() =~= outdated_command(manager).args);
            CommandRequest { program: text("brew"), args, allowed_exit_codes: None }
        },
        PackageManager::Npm => {
            args.push(text("outdated"));
            args.push(text("-g"));
            args.push(text("--json"));
            let mut codes: Vec<i32> = Vec::new();
            codes.push(0);
            codes.push(1);
            assert(args.deep_view() =~= outdated_command(manager).args);
            assert(codes@ =~= seq![0i32, 1i32]);
            CommandRequest { program: text("npm"), args, allowed_exit_codes: Some(codes) }
        },
        PackageManager::Pip => {
            args.push(text("list"));
            args.push(text("--outdated"));
            args.push(text("--format=json"));
            assert(args.deep_view() =~= outdated_command(manager).args);
            CommandRequest { program: text("pip"), args, allowed_exit_codes: None }
        },
    }
}

/// Reads the output of `manager`'s list command.
pub fn read_installed(manager: PackageManager, stdout: &str) -> (found: Result<
    Vec<(String, String)>,
    CollectionError,
>)
    ensures
        match found {
            Ok(pairs) => installed_of(manager, stdout@) == Ok::<Entries, CollectionErrorView>(
                pairs.deep_view(),
            ),
            Err(error) => installed_of(manager, stdout@) == Err::<Entries, CollectionErrorView>(
                error@,
            ),
        },
{
    match manager {
        PackageManager::Brew => Ok(brew::parse_listing(stdout).into_entries()),
        PackageManager::Npm => match npm::parse_installed(stdout) {
            Ok(table) => Ok(table.into_entries()),
            Err(error) => Err(error),
        },
        PackageManager::Pip => pip::parse_installed(stdout),
    }
}

/// Reads the output of `manager`'s outdated command.
pub fn read_latest(manager: PackageManager, stdout: &str) -> (found: Result<
    VersionTable,
    CollectionError,
>)
    ensures
        match found {
            Ok(table) => latest_of(manager, stdout@) == Ok::<Entries, CollectionErrorView>(table@),
            Err(error) => latest_of(manager, stdout@) == Err::<Entries, CollectionErrorView>(error@),
        },
{
    match manager {
        PackageManager::Brew => brew::parse_outdated(stdout),
        PackageManager::Npm => npm::parse_outdated(stdout),
        PackageManager::Pip => pip::parse_outdated(stdout),
    }
}

/// Where a probe stands once its list command has ended.
#[derive(Debug, PartialEq, Eq)]
pub enum Listing {
    /// The probe is over.
    Settled(Result<Vec<PackageRecord>, CollectionError>),
    /// These packages are installed; the outdated command comes next.
    Installed(Vec<(String, String)>),
}

/// A harvest as mathematics.
pub open spec fn harvest_view(harvest: Result<Vec<PackageRecord>, CollectionError>) -> Harvest {
    match harvest {
        Ok(records) => Ok(records.deep_view()),
        Err(error) => Err(error@),
    }
}

impl View for Listing {
    type V = ListingView;

    open spec fn view(&self) -> ListingView {
        match self {
            Listing::Settled(harvest) => ListingView::Settled(harvest_view(*harvest)),
            Listing::Installed(installed) => ListingView::Installed(installed.deep_view()),
        }
    }
}

/// Where `manager`'s probe stands once its list command has ended as
/// `execution` says.
pub fn settle_listing(manager: PackageManager, execution: Execution) -> (listing: Listing)
    ensures
        listing@ == after_listing(manager, execution@),
{
    let request = list_request(manager);
    let result = match request.outcome(execution) {
        Ok(result) => result,
        Err(error) => {
            return Listing::Settled(Err(error));
        },
    };
    // A list command allows no exit code but 0.
    let label = request.label();
    match ensure_success(&result, label.as_str()) {
        Ok(_) => {},
        Err(error) => {
            return Listing::Settled(Err(error));
        },
    }
    match read_installed(manager, result.stdout.as_str()) {
        Err(error) => Listing::Settled(Err(error)),
        Ok(installed) => if installed.len() == 0 {
            let none: Vec<PackageRecord> = Vec::new();
            assert(none.deep_view() =~= Seq::<RecordView>::empty());
            Listing::Settled(Ok(none))
        } else {
            Listing::Installed(installed)
        },
    }
}

/// What `manager`'s probe yields once its outdated command has ended as
/// `execution` says.
pub fn settle_check(
    manager: PackageManager,
    installed: &Vec<(String, String)>,
    execution: Execution,
) -> (harvest: Result<Vec<PackageRecord>, CollectionError>)
    ensures
        harvest_view(harvest) == after_check(manager, installed.deep_view(), execution@),
{
    let request = outdated_request(manager);
    let result = match request.outcome(execution) {
        Ok(result) => result,
        Err(error) => {
            return Err(error);
        },
    };
    match manager {
        // npm ends its report with exit code 1 where something is outdated.
        PackageManager::Npm => {},
        _ => {
            let label = request.label();
            match ensure_success(&result, label.as_str()) {
                Ok(_) => {},
                Err(error) => {
                    return Err(error);
                },
            }
        },
    }
    match read_latest(manager, result.stdout.as_str()) {
        Err(error) => Err(error),
        Ok(latest) => Ok(build_records(manager, installed, &latest)),
    }
}

} // verus!
