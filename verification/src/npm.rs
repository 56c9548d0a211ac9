//! npm: the JSON tree of globally installed packages and the JSON report of
//! outdated ones.

use crate::error::{CollectionError, CollectionErrorView};
use crate::json::{
    find_member, find_optional_text, json_document, member, object_of, optional_text, parse_json,
    Json, Members,
};
use crate::probe::{gather, lemma_gather_prefix_failure, yield_view, Yield};
use crate::table::{table_of, Entries, VersionTable};
use crate::text::{is_blank, text_is_blank};
use vstd::prelude::*;

verus! {

/// What one member of `dependencies` contributes: the package's name with its
/// `version`. A package without a version contributes nothing.
pub open spec fn dependency_yield(entry: (String, Json)) -> Yield {
    match object_of(entry.1) {
        Err(failure) => Err(failure),
        Ok(fields) => match optional_text(fields, "version"@) {
            Err(failure) => Err(failure),
            Ok(Some(version)) => Ok(Some((entry.0@, version))),
            Ok(None) => Ok(None),
        },
    }
}

/// The name/version pairs of a tree: an object whose `dependencies`, where it
/// has any, is an object keyed by package name.
pub open spec fn installed_pairs(doc: Json) -> Result<Entries, Seq<char>> {
    match object_of(doc) {
        Err(failure) => Err(failure),
        Ok(fields) => match member(fields, "dependencies"@) {
            None => Ok(Seq::empty()),
            Some(dependencies) => match object_of(dependencies) {
                Err(failure) => Err(failure),
                Ok(entries) => gather(entries, |entry: (String, Json)| dependency_yield(entry)),
            },
        },
    }
}

/// The installed packages that the output of `npm ls -g --depth=0 --json`
/// names, each with its version.
pub open spec fn installed_packages(text: Seq<char>) -> Result<Entries, CollectionErrorView> {
    match json_document(text) {
        Err(message) => Err(CollectionErrorView::Json(message@)),
        Ok(doc) => match installed_pairs(doc) {
            Err(failure) => Err(CollectionErrorView::Json(failure)),
            Ok(pairs) => Ok(table_of(pairs)),
        },
    }
}

/// What one member of the report contributes: the package's name with the
/// string under `latest`. A member without one contributes nothing.
pub open spec fn outdated_yield(entry: (String, Json)) -> Yield {
    match entry.1 {
        Json::Object(fields) => match member(fields@, "latest"@) {
            Some(Json::Text(version)) => Ok(Some((entry.0@, version@))),
            _ => Ok(None),
        },
        _ => Ok(None),
    }
}

/// The name/latest-version pairs of a report: an object keyed by package name.
/// A document that is no object reports nothing.
pub open spec fn outdated_pairs(doc: Json) -> Result<Entries, Seq<char>> {
    match doc {
        Json::Object(entries) => gather(entries@, |entry: (String, Json)| outdated_yield(entry)),
        _ => Ok(Seq::empty()),
    }
}

/// The latest versions that the output of `npm outdated -g --json` reports:
/// none where the output is blank.
pub open spec fn outdated_packages(text: Seq<char>) -> Result<Entries, CollectionErrorView> {
    if is_blank(text) {
        Ok(Seq::empty())
    } else {
        match json_document(text) {
            Err(message) => Err(CollectionErrorView::Json(message@)),
            Ok(doc) => match outdated_pairs(doc) {
                Err(failure) => Err(CollectionErrorView::Json(failure)),
                Ok(pairs) => Ok(table_of(pairs)),
            },
        }
    }
}

/// A report never fails on its shape: what does not fit is passed over.
pub proof fn lemma_outdated_pairs_total(doc: Json)
    ensures
        outdated_pairs(doc) is Ok,
{
    if let Json::Object(entries) = doc {
        lemma_outdated_gather_total(entries@);
    }
}

proof fn lemma_outdated_gather_total(entries: Members)
    ensures
        gather(entries, |entry: (String, Json)| outdated_yield(entry)) is Ok,
    decreases entries.len(),
{
    if entries.len() > 0 {
        lemma_outdated_gather_total(entries.drop_last());
    }
}

/// What one member of `dependencies` contributes.
pub fn dependency_entry(name: &String, package: &Json) -> (found: Result<
    Option<(String, String)>,
    String,
>)
    ensures
        yield_view(found) == dependency_yield((*name, *package)),
{
    let fields = match package.as_object() {
        Ok(fields) => fields,
        Err(message) => {
            return Err(message);
        },
    };
    match find_optional_text(fields, "version") {
        Err(message) => Err(message),
        Ok(Some(version)) => Ok(Some((name.clone(), version.clone()))),
        Ok(None) => Ok(None),
    }
}

/// The installed packages of a parsed tree, as a table.
pub fn installed_from_document(doc: &Json) -> (found: Result<VersionTable, String>)
    ensures
        match found {
            Ok(table) => installed_pairs(*doc) is Ok && table@ == table_of(
                installed_pairs(*doc)->Ok_0,
            ),
            Err(message) => installed_pairs(*doc) == Err::<Entries, Seq<char>>(message@),
        },
{
    let fields = match doc.as_object() {
        Ok(fields) => fields,
        Err(message) => {
            return Err(message);
        },
    };
    let dependencies = match find_member(fields, "dependencies") {
        Some(dependencies) => dependencies,
        None => {
            return Ok(VersionTable::new());
        },
    };
    let entries = match dependencies.as_object() {
        Ok(entries) => entries,
        Err(message) => {
            return Err(message);
        },
    };
    let ghost each = |entry: (String, Json)| dependency_yield(entry);
    let mut table = VersionTable::new();
    let mut index: usize = 0;
    let ghost mut pairs: Entries = Seq::empty();
    assert(entries@.take(0) =~= Seq::<(String, Json)>::empty());
    while index < entries.len()
        invariant
            index <= entries.len(),
            installed_pairs(*doc) == gather(entries@, each),
            each == (|entry: (String, Json)| dependency_yield(entry)),
            gather(entries@.take(index as int), each) == Ok::<Entries, Seq<char>>(pairs),
            table@ == table_of(pairs),
        decreases entries.len() - index,
    {
        proof {
            let next = entries@.take(index + 1);
            assert(next.drop_last() =~= entries@.take(index as int));
            assert(next.last() == entries@[index as int]);
        }
        match dependency_entry(&entries[index].0, &entries[index].1) {
            Err(message) => {
                proof {
                    lemma_gather_prefix_failure(entries@, each, index + 1);
                }
                return Err(message);
            },
            Ok(Some((name, version))) => {
                proof {
                    let pair = (name@, version@);
                    assert(pairs.push(pair).drop_last() =~= pairs);
                    pairs = pairs.push(pair);
                }
                table.insert(name, version);
            },
            Ok(None) => {},
        }
        index = index + 1;
    }
    assert(entries@.take(index as int) =~= entries@);
    Ok(table)
}

/// Reads the output of `npm ls -g --depth=0 --json`.
pub fn parse_installed(text: &str) -> (found: Result<VersionTable, CollectionError>)
    ensures
        match found {
            Ok(table) => installed_packages(text@) == Ok::<Entries, CollectionErrorView>(table@),
            Err(error) => installed_packages(text@) == Err::<Entries, CollectionErrorView>(error@),
        },
{
    match parse_json(text) {
        Err(message) => Err(CollectionError::Json(message)),
        Ok(doc) => match installed_from_document(&doc) {
            Err(message) => Err(CollectionError::Json(message)),
            Ok(table) => Ok(table),
        },
    }
}

/// What one member of the report contributes.
pub fn outdated_entry(name: &String, details: &Json) -> (found: Option<(String, String)>)
    ensures
        yield_view(Ok(found)) == outdated_yield((*name, *details)),
{
    match details {
        Json::Object(fields) => match find_member(fields, "latest") {
            Some(Json::Text(version)) => Some((name.clone(), version.clone())),
            _ => None,
        },
        _ => None,
    }
}

/// The latest versions that a parsed report gives, as a table.
pub fn outdated_from_document(doc: &Json) -> (table: VersionTable)
    ensures
        outdated_pairs(*doc) is Ok,
        table@ == table_of(outdated_pairs(*doc)->Ok_0),
{
    let entries = match doc {
        Json::Object(entries) => entries,
        _ => {
            return VersionTable::new();
        },
    };
    let ghost each = |entry: (String, Json)| outdated_yield(entry);
    let mut table = VersionTable::new();
    let mut index: usize = 0;
    let ghost mut pairs: Entries = Seq::empty();
    assert(entries@.take(0) =~= Seq::<(String, Json)>::empty());
    while index < entries.len()
        invariant
            index <= entries.len(),
            outdated_pairs(*doc) == gather(entries@, each),
            each == (|entry: (String, Json)| outdated_yield(entry)),
            gather(entries@.take(index as int), each) == Ok::<Entries, Seq<char>>(pairs),
            table@ == table_of(pairs),
        decreases entries.len() - index,
    {
        proof {
            let next = entries@.take(index + 1);
            assert(next.drop_last() =~= entries@.take(index as int));
            assert(next.last() == entries@[index as int]);
        }
        match outdated_entry(&entries[index].0, &entries[index].1) {
            Some((name, version)) => {
                proof {
                    let pair = (name@, version@);
                    assert(pairs.push(pair).drop_last() =~= pairs);
                    pairs = pairs.push(pair);
                }
                table.insert(name, version);
            },
            None => {},
        }
        index = index + 1;
    }
    assert(entries@.take(index as int) =~= entries@);
    table
}

/// Reads the output of `npm outdated -g --json`.
pub fn parse_outdated(text: &str) -> (found: Result<VersionTable, CollectionError>)
    ensures
        match found {
            Ok(table) => outdated_packages(text@) == Ok::<Entries, CollectionErrorView>(table@),
            Err(error) => outdated_packages(text@) == Err::<Entries, CollectionErrorView>(error@),
        },
{
    if text_is_blank(text) {
        return Ok(VersionTable::new());
    }
    match parse_json(text) {
        Err(message) => Err(CollectionError::Json(message)),
        Ok(doc) => Ok(outdated_from_document(&doc)),
    }
}

} // verus!
