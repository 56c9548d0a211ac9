//! pip: the JSON list of installed packages and the JSON list of outdated
//! ones.

use crate::error::{CollectionError, CollectionErrorView};
use crate::json::{
    array_of, find_required_text, json_document, object_of, parse_json, required_text, Json,
};
use crate::probe::{gather, lemma_gather_prefix_failure, yield_view, Yield};
use crate::table::{table_of, Entries, VersionTable};
use crate::text::{is_blank, text_is_blank};
use vstd::prelude::*;

verus! {

/// What one item of a list contributes: the string under `name` with the
/// string under `version_key`. Both must be there.
pub open spec fn package_yield(item: Json, version_key: Seq<char>) -> Yield {
    match object_of(item) {
        Err(failure) => Err(failure),
        Ok(fields) => match required_text(fields, "name"@) {
            Err(failure) => Err(failure),
            Ok(name) => match required_text(fields, version_key) {
                Err(failure) => Err(failure),
                Ok(version) => Ok(Some((name, version))),
            },
        },
    }
}

/// The pairs of a list: an array of package objects.
pub open spec fn listed_pairs(doc: Json, version_key: Seq<char>) -> Result<Entries, Seq<char>> {
    match array_of(doc) {
        Err(failure) => Err(failure),
        Ok(items) => gather(items, |item: Json| package_yield(item, version_key)),
    }
}

/// The installed packages that the output of `pip list --format=json` names,
/// each with its `version`, in the order of the list.
pub open spec fn installed_packages(text: Seq<char>) -> Result<Entries, CollectionErrorView> {
    match json_document(text) {
        Err(message) => Err(CollectionErrorView::Json(message@)),
        Ok(doc) => match listed_pairs(doc, "version"@) {
            Err(failure) => Err(CollectionErrorView::Json(failure)),
            Ok(pairs) => Ok(pairs),
        },
    }
}

/// The latest versions that the output of
/// `pip list --outdated --format=json` reports, each under `latest_version`:
/// none where the output is blank.
pub open spec fn outdated_packages(text: Seq<char>) -> Result<Entries, CollectionErrorView> {
    if is_blank(text) {
        Ok(Seq::empty())
    } else {
        match json_document(text) {
            Err(message) => Err(CollectionErrorView::Json(message@)),
            Ok(doc) => match listed_pairs(doc, "latest_version"@) {
                Err(failure) => Err(CollectionErrorView::Json(failure)),
                Ok(pairs) => Ok(table_of(pairs)),
            },
        }
    }
}

/// What one item of a list contributes.
pub fn package_entry(item: &Json, version_key: &str) -> (found: Result<
    Option<(String, String)>,
    String,
>)
    ensures
        yield_view(found) == package_yield(*item, version_key@),
{
    let fields = match item.as_object() {
        Ok(fields) => fields,
        Err(message) => {
            return Err(message);
        },
    };
    let name = match find_required_text(fields, "name") {
        Ok(name) => name,
        Err(message) => {
            return Err(message);
        },
    };
    match find_required_text(fields, version_key) {
        Ok(version) => Ok(Some((name.clone(), version.clone()))),
        Err(message) => Err(message),
    }
}

/// The pairs of a parsed list, in order.
pub fn pairs_from_document(doc: &Json, version_key: &str) -> (found: Result<
    Vec<(String, String)>,
    String,
>)
    ensures
        match found {
            Ok(pairs) => listed_pairs(*doc, version_key@) == Ok::<Entries, Seq<char>>(
                pairs.deep_view(),
            ),
            Err(message) => listed_pairs(*doc, version_key@) == Err::<Entries, Seq<char>>(message@),
        },
{
    let items = match doc.as_array() {
        Ok(items) => items,
        Err(message) => {
            return Err(message);
        },
    };
    let ghost each = |item: Json| package_yield(item, version_key@);
    let mut pairs: Vec<(String, String)> = Vec::new();
    let mut index: usize = 0;
    assert(items@.take(0) =~= Seq::<Json>::empty());
    assert(pairs.deep_view() =~= Seq::empty());
    while index < items.len()
        invariant
            index <= items.len(),
            listed_pairs(*doc, version_key@) == gather(items@, each),
            each == (|item: Json| package_yield(item, version_key@)),
            gather(items@.take(index as int), each) == Ok::<Entries, Seq<char>>(pairs.deep_view()),
        decreases items.len() - index,
    {
        proof {
            let next = items@.take(index + 1);
            assert(next.drop_last() =~= items@.take(index as int));
            assert(next.last() == items@[index as int]);
        }
        match package_entry(&items[index], version_key) {
            Err(message) => {
                proof {
                    lemma_gather_prefix_failure(items@, each, index + 1);
                }
                return Err(message);
            },
            Ok(Some(pair)) => {
                let ghost before = pairs.deep_view();
                pairs.push(pair);
                assert(pairs.deep_view() =~= before.push((pair.0@, pair.1@)));
            },
            Ok(None) => {},
        }
        index = index + 1;
    }
    assert(items@.take(index as int) =~= items@);
    Ok(pairs)
}

/// Reads the output of `pip list --format=json`.
pub fn parse_installed(text: &str) -> (found: Result<Vec<(String, String)>, CollectionError>)
    ensures
        match found {
            Ok(pairs) => installed_packages(text@) == Ok::<Entries, CollectionErrorView>(
                pairs.deep_view(),
            ),
            Err(error) => installed_packages(text@) == Err::<Entries, CollectionErrorView>(error@),
        },
{
    match parse_json(text) {
        Err(message) => Err(CollectionError::Json(message)),
        Ok(doc) => match pairs_from_document(&doc, "version") {
            Err(message) => Err(CollectionError::Json(message)),
            Ok(pairs) => Ok(pairs),
        },
    }
}

/// Reads the output of `pip list --outdated --format=json`.
pub fn parse_outdated(text: &str) -> (found: Result<VersionTable, CollectionError>)
    ensures
        match found {
            Ok(table) => outdated_packages(text@) == Ok::<Entries, CollectionErrorView>(table@),
            Err(error) => outdated_packages(text@) == Err::<Entries, CollectionErrorView>(error@),
        },
{
    if text_is_blank(text) {
        return Ok(VersionTable::new());
    }
    match parse_json(text) {
        Err(message) => Err(CollectionError::Json(message)),
        Ok(doc) => match pairs_from_document(&doc, "latest_version") {
            Err(message) => Err(CollectionError::Json(message)),
            Ok(pairs) => Ok(VersionTable::from_pairs(&pairs)),
        },
    }
}

} // verus!
