//! Homebrew: the plain-text list of installed formulae and the JSON report of
//! outdated ones.

use crate::error::{CollectionError, CollectionErrorView};
use crate::json::{
    array_of, check_optional_text_list, find_optional_text, find_required, find_required_text,
    json_document, object_of, optional_text, optional_text_list, parse_json, required,
    required_text, Json,
};
use crate::probe::{gather, lemma_gather_prefix_failure, yield_view, Yield};
use crate::table::{table_of, Entries, VersionTable};
use crate::text::{
    chars_of, is_blank, is_space, lemma_line_end_bounds, lemma_run_end, lemma_run_start, line_end,
    run_end, run_start, scan_line_end, scan_run_end, scan_run_start, text_is_blank,
};
use vstd::prelude::*;

verus! {

/// What the line of `s` between `lo` and `hi` says: its first word is the name
/// and its last word the version. A line of fewer than two words says nothing.
pub open spec fn listing_entry(s: Seq<char>, lo: int, hi: int) -> Option<(Seq<char>, Seq<char>)> {
    let name_start = run_end(s, lo, hi, true);
    let name_end = run_end(s, name_start, hi, false);
    let version_end = run_start(s, lo, hi, true);
    let version_start = run_start(s, lo, version_end, false);
    if name_start < hi && name_end < version_end {
        Some((s.subrange(name_start, name_end), s.subrange(version_start, version_end)))
    } else {
        None
    }
}

/// A word: not empty, and free of white space.
pub open spec fn is_word(s: Seq<char>) -> bool {
    &&& s.len() > 0
    &&& forall|i: int| 0 <= i < s.len() ==> !is_space(#[trigger] s[i])
}

/// What a line says is made of two of its words: the name starts where the
/// white space at the start of the line ends, the version ends where the white
/// space at the end of the line starts, and white space lies between the two.
/// A line says nothing where all of it from the first word to the last is one
/// word, or where it is blank.
pub proof fn lemma_listing_entry_words(s: Seq<char>, lo: int, hi: int)
    requires
        0 <= lo <= hi <= s.len(),
    ensures
        match listing_entry(s, lo, hi) {
            Some((name, version)) => {
                &&& is_word(name)
                &&& is_word(version)
                &&& exists|a: int, b: int, c: int, d: int|
                    {
                        &&& lo <= a < b < c < d <= hi
                        &&& name == s.subrange(a, b)
                        &&& version == s.subrange(c, d)
                        &&& is_blank(s.subrange(lo, a))
                        &&& is_blank(s.subrange(d, hi))
                        &&& is_space(s[b])
                        &&& is_space(s[c - 1])
                    }
            },
            None => is_blank(s.subrange(lo, hi)) || is_word(
                s.subrange(run_end(s, lo, hi, true), run_start(s, lo, hi, true)),
            ),
        },
{
    let a = run_end(s, lo, hi, true);
    lemma_run_end(s, lo, hi, true);
    let b = run_end(s, a, hi, false);
    lemma_run_end(s, a, hi, false);
    let d = run_start(s, lo, hi, true);
    lemma_run_start(s, lo, hi, true);
    let c = run_start(s, lo, d, false);
    lemma_run_start(s, lo, d, false);
    if a == hi {
        assert forall|i: int| 0 <= i < s.subrange(lo, hi).len() implies is_space(
            #[trigger] s.subrange(lo, hi)[i],
        ) by {
            assert(is_space(s[lo + i]));
        }
    } else {
        // The line is not blank: its last word ends after its first begins.
        assert(a < d) by {
            if d <= a {
                assert(is_space(s[a]));
            }
        }
        assert(a < b);
        assert(c < d);
        if b < d {
            assert(b < c) by {
                if c <= b {
                    assert(!is_space(s[b]));
                }
            }
            let name = s.subrange(a, b);
            let version = s.subrange(c, d);
            assert forall|i: int| 0 <= i < name.len() implies !is_space(#[trigger] name[i]) by {
                assert(is_space(s[a + i]) == false);
            }
            assert forall|i: int| 0 <= i < version.len() implies !is_space(
                #[trigger] version[i],
            ) by {
                assert(is_space(s[c + i]) == false);
            }
            assert forall|i: int| 0 <= i < s.subrange(lo, a).len() implies is_space(
                #[trigger] s.subrange(lo, a)[i],
            ) by {
                assert(is_space(s[lo + i]));
            }
            assert forall|i: int| 0 <= i < s.subrange(d, hi).len() implies is_space(
                #[trigger] s.subrange(d, hi)[i],
            ) by {
                assert(is_space(s[d + i]));
            }
            assert(lo <= a < b < c < d <= hi && name == s.subrange(a, b) && version == s.subrange(
                c,
                d,
            ) && is_blank(s.subrange(lo, a)) && is_blank(s.subrange(d, hi)) && is_space(s[b])
                && is_space(s[c - 1]));
        } else {
            let word = s.subrange(a, d);
            assert(b == d) by {
                if d < b {
                    assert(!is_space(s[d]));
                }
            }
            assert forall|i: int| 0 <= i < word.len() implies !is_space(#[trigger] word[i]) by {
                assert(is_space(s[a + i]) == false);
            }
        }
    }
}

/// What the lines of `s` from position `from` on say, line by line.
pub open spec fn listing_pairs(s: Seq<char>, from: int) -> Entries
    decreases s.len() + 1 - from,
{
    if from < 0 || from >= s.len() {
        Seq::empty()
    } else {
        let end = line_end(s, from);
        proof {
            lemma_line_end_bounds(s, from);
        }
        match listing_entry(s, from, end) {
            Some(pair) => seq![pair] + listing_pairs(s, end + 1),
            None => listing_pairs(s, end + 1),
        }
    }
}

/// The installed formulae that the output of `brew list --versions` names,
/// each with its version; a formula listed twice keeps its first place and its
/// last version.
pub open spec fn installed_formulae(text: Seq<char>) -> Entries {
    table_of(listing_pairs(text, 0))
}

/// Reads the output of `brew list --versions`.
pub fn parse_listing(text: &str) -> (table: VersionTable)
    ensures
        table@ == installed_formulae(text@),
{
    let chars = chars_of(text);
    let mut table = VersionTable::new();
    let mut from: usize = 0;
    let ghost mut seen: Entries = Seq::empty();
    assert(seen + listing_pairs(text@, 0) =~= listing_pairs(text@, 0));
    while from < chars.len()
        invariant
            chars@ == text@,
            from <= chars.len(),
            table@ == table_of(seen),
            seen + listing_pairs(text@, from as int) == listing_pairs(text@, 0),
        decreases chars.len() - from,
    {
        let end = scan_line_end(&chars, from);
        let name_start = scan_run_end(&chars, from, end, true);
        let name_end = scan_run_end(&chars, name_start, end, false);
        let version_end = scan_run_start(&chars, from, end, true);
        let version_start = scan_run_start(&chars, from, version_end, false);
        let ghost rest = listing_pairs(text@, end + 1);
        if name_start < end && name_end < version_end {
            let name = text.substring_char(name_start, name_end).to_owned();
            let version = text.substring_char(version_start, version_end).to_owned();
            proof {
                let pair = (name@, version@);
                assert(listing_entry(text@, from as int, end as int) == Some(pair));
                assert(seen.push(pair) + rest =~= seen + (seq![pair] + rest));
                assert(seen.push(pair).drop_last() =~= seen);
                seen = seen.push(pair);
            }
            table.insert(name, version);
        }
        if end < chars.len() {
            from = end + 1;
        } else {
            from = end;
        }
    }
    table
}

/// The latest version that a formula's report gives: `latest_version` where it
/// is there, else `current_version`; a blank one counts for nothing.
pub open spec fn reported_latest(
    name: Seq<char>,
    latest: Option<Seq<char>>,
    current: Option<Seq<char>>,
) -> Option<(Seq<char>, Seq<char>)> {
    let chosen = if latest is Some {
        latest
    } else {
        current
    };
    match chosen {
        Some(version) => if is_blank(version) {
            None
        } else {
            Some((name, version))
        },
        None => None,
    }
}

/// What one item of `formulae` contributes.
pub open spec fn formula_yield(item: Json) -> Yield {
    match object_of(item) {
        Err(failure) => Err(failure),
        Ok(fields) => match required_text(fields, "name"@) {
            Err(failure) => Err(failure),
            Ok(name) => match optional_text_list(fields, "installed_versions"@) {
                Err(failure) => Err(failure),
                Ok(_) => match optional_text(fields, "current_version"@) {
                    Err(failure) => Err(failure),
                    Ok(current) => match optional_text(fields, "latest_version"@) {
                        Err(failure) => Err(failure),
                        Ok(latest) => Ok(reported_latest(name, latest, current)),
                    },
                },
            },
        },
    }
}

/// The name/latest-version pairs of a report: an object whose `formulae` is an
/// array of formula objects.
pub open spec fn outdated_pairs(doc: Json) -> Result<Entries, Seq<char>> {
    match object_of(doc) {
        Err(failure) => Err(failure),
        Ok(fields) => match required(fields, "formulae"@) {
            Err(failure) => Err(failure),
            Ok(list) => match array_of(list) {
                Err(failure) => Err(failure),
                Ok(items) => gather(items, |item: Json| formula_yield(item)),
            },
        },
    }
}

/// The latest versions that the output of `brew outdated --json=v2` reports:
/// none where the output is blank.
pub open spec fn outdated_formulae(text: Seq<char>) -> Result<Entries, CollectionErrorView> {
    if is_blank(text) {
        Ok(Seq::empty())
    } else {
        match json_document(text) {
            Err(message) => Err(CollectionErrorView::Json(message@)),
            Ok(doc) => match outdated_pairs(doc) {
                Err(failure) => Err(CollectionErrorView::Json(failure)),
                Ok(pairs) => Ok(table_of(pairs)),
            },
        }
    }
}

/// What one item of `formulae` contributes.
pub fn formula_entry(item: &Json) -> (found: Result<Option<(String, String)>, String>)
    ensures
        yield_view(found) == formula_yield(*item),
{
    let fields = match item.as_object() {
        Ok(fields) => fields,
        Err(message) => {
            return Err(message);
        },
    };
    let name = match find_required_text(fields, "name") {
        Ok(name) => name,
        Err(message) => {
            return Err(message);
        },
    };
    match check_optional_text_list(fields, "installed_versions") {
        Ok(_) => {},
        Err(message) => {
            return Err(message);
        },
    }
    let current = match find_optional_text(fields, "current_version") {
        Ok(current) => current,
        Err(message) => {
            return Err(message);
        },
    };
    let latest = match find_optional_text(fields, "latest_version") {
        Ok(latest) => latest,
        Err(message) => {
            return Err(message);
        },
    };
    let chosen = match latest {
        Some(version) => Some(version),
        None => current,
    };
    match chosen {
        Some(version) => if text_is_blank(version.as_str()) {
            Ok(None)
        } else {
            Ok(Some((name.clone(), version.clone())))
        },
        None => Ok(None),
    }
}

/// The latest versions that a parsed report gives, as a table.
pub fn outdated_from_document(doc: &Json) -> (found: Result<VersionTable, String>)
    ensures
        match found {
            Ok(table) => outdated_pairs(*doc) is Ok && table@ == table_of(outdated_pairs(*doc)->Ok_0),
            Err(message) => outdated_pairs(*doc) == Err::<Entries, Seq<char>>(message@),
        },
{
    let fields = match doc.as_object() {
        Ok(fields) => fields,
        Err(message) => {
            return Err(message);
        },
    };
    let list = match find_required(fields, "formulae") {
        Ok(list) => list,
        Err(message) => {
            return Err(message);
        },
    };
    let items = match list.as_array() {
        Ok(items) => items,
        Err(message) => {
            return Err(message);
        },
    };
    let ghost each = |item: Json| formula_yield(item);
    let mut table = VersionTable::new();
    let mut index: usize = 0;
    let ghost mut pairs: Entries = Seq::empty();
    assert(items@.take(0) =~= Seq::<Json>::empty());
    while index < items.len()
        invariant
            index <= items.len(),
            outdated_pairs(*doc) == gather(items@, each),
            each == (|item: Json| formula_yield(item)),
            gather(items@.take(index as int), each) == Ok::<Entries, Seq<char>>(pairs),
            table@ == table_of(pairs),
        decreases items.len() - index,
    {
        proof {
            let next = items@.take(index + 1);
            assert(next.drop_last() =~= items@.take(index as int));
            assert(next.last() == items@[index as int]);
        }
        match formula_entry(&items[index]) {
            Err(message) => {
                proof {
                    lemma_gather_prefix_failure(items@, each, index + 1);
                }
                return Err(message);
            },
            Ok(Some((name, version))) => {
                proof {
                    let pair = (name@, version@);
                    assert(pairs.push(pair).drop_last() =~= pairs);
                    pairs = pairs.push(pair);
                }
                table.insert(name, version);
            },
            Ok(None) => {},
        }
        index = index + 1;
    }
    assert(items@.take(index as int) =~= items@);
    Ok(table)
}

/// Reads the output of `brew outdated --json=v2`.
pub fn parse_outdated(text: &str) -> (found: Result<VersionTable, CollectionError>)
    ensures
        match found {
            Ok(table) => outdated_formulae(text@) == Ok::<Entries, CollectionErrorView>(table@),
            Err(error) => outdated_formulae(text@) == Err::<Entries, CollectionErrorView>(error@),
        },
{
    if text_is_blank(text) {
        return Ok(VersionTable::new());
    }
    match parse_json(text) {
        Err(message) => Err(CollectionError::Json(message)),
        Ok(doc) => match outdated_from_document(&doc) {
            Err(message) => Err(CollectionError::Json(message)),
            Ok(table) => Ok(table),
        },
    }
}

} // verus!
