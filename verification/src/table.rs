//! An insertion-ordered table from package names to versions.

use vstd::prelude::*;

verus! {

/// Name/version pairs as mathematics.
pub type Entries = Seq<(Seq<char>, Seq<char>)>;

/// Some pair of `entries` is keyed by `key`.
pub open spec fn has_key(entries: Entries, key: Seq<char>) -> bool {
    exists|i: int| 0 <= i < entries.len() && (#[trigger] entries[i]).0 == key
}

/// `i` is the first position of `entries` keyed by `key`.
pub open spec fn is_first_at(entries: Entries, key: Seq<char>, i: int) -> bool {
    &&& 0 <= i < entries.len()
    &&& entries[i].0 == key
    &&& forall|j: int| 0 <= j < i ==> (#[trigger] entries[j]).0 != key
}

/// The first position of `entries` keyed by `key`, where there is one.
pub open spec fn first_index(entries: Entries, key: Seq<char>) -> int {
    choose|i: int| is_first_at(entries, key, i)
}

/// The version that `entries` gives for `key`.
pub open spec fn lookup(entries: Entries, key: Seq<char>) -> Option<Seq<char>> {
    if has_key(entries, key) {
        Some(entries[first_index(entries, key)].1)
    } else {
        None
    }
}

/// `entries` with `key` bound to `value`: in place where the key is already
/// there, at the end where it is new.
pub open spec fn upsert(entries: Entries, key: Seq<char>, value: Seq<char>) -> Entries {
    if has_key(entries, key) {
        entries.update(first_index(entries, key), (key, value))
    } else {
        entries.push((key, value))
    }
}

/// No two pairs of `entries` share a key.
pub open spec fn distinct_keys(entries: Entries) -> bool {
    forall|i: int, j: int|
        0 <= i < j < entries.len() ==> (#[trigger] entries[i]).0 != (#[trigger] entries[j]).0
}

/// The table that results from inserting `pairs` one after the other into an
/// empty table.
pub open spec fn table_of(pairs: Entries) -> Entries
    decreases pairs.len(),
{
    if pairs.len() == 0 {
        Seq::empty()
    } else {
        upsert(table_of(pairs.drop_last()), pairs.last().0, pairs.last().1)
    }
}

/// A position keyed by `key` with none before it is the first index.
pub proof fn lemma_first_index(entries: Entries, key: Seq<char>, i: int)
    requires
        is_first_at(entries, key, i),
    ensures
        has_key(entries, key),
        first_index(entries, key) == i,
{
    let k = first_index(entries, key);
    assert(is_first_at(entries, key, k));
    if k < i {
        assert(entries[k].0 != key);
    }
    if i < k {
        assert(entries[i].0 != key);
    }
}

/// A key that some pair holds has a first position.
pub proof fn lemma_has_key_first(entries: Entries, key: Seq<char>)
    requires
        has_key(entries, key),
    ensures
        is_first_at(entries, key, first_index(entries, key)),
{
    let i = choose|i: int| 0 <= i < entries.len() && (#[trigger] entries[i]).0 == key;
    lemma_first_below(entries, key, i);
}

proof fn lemma_first_below(entries: Entries, key: Seq<char>, i: int)
    requires
        0 <= i < entries.len(),
        entries[i].0 == key,
    ensures
        exists|k: int| is_first_at(entries, key, k),
    decreases i,
{
    if exists|j: int| 0 <= j < i && (#[trigger] entries[j]).0 == key {
        let j = choose|j: int| 0 <= j < i && (#[trigger] entries[j]).0 == key;
        lemma_first_below(entries, key, j);
    } else {
        assert(is_first_at(entries, key, i));
    }
}

/// Inserting keeps keys distinct, binds the key, and leaves other keys alone.
pub proof fn lemma_upsert(entries: Entries, key: Seq<char>, value: Seq<char>)
    ensures
        distinct_keys(entries) ==> distinct_keys(upsert(entries, key, value)),
        lookup(upsert(entries, key, value), key) == Some(value),
        forall|other: Seq<char>|
            other != key ==> lookup(upsert(entries, key, value), other) == lookup(entries, other),
{
    let after = upsert(entries, key, value);
    if has_key(entries, key) {
        lemma_has_key_first(entries, key);
        let at = first_index(entries, key);
        assert(is_first_at(after, key, at));
        lemma_first_index(after, key, at);
        assert forall|other: Seq<char>| other != key implies lookup(after, other) == lookup(
            entries,
            other,
        ) by {
            lemma_upsert_other(entries, key, value, other);
        }
    } else {
        let at = entries.len() as int;
        assert forall|j: int| 0 <= j < at implies (#[trigger] after[j]).0 != key by {
            assert(after[j] == entries[j]);
        }
        assert(is_first_at(after, key, at));
        lemma_first_index(after, key, at);
        assert forall|other: Seq<char>| other != key implies lookup(after, other) == lookup(
            entries,
            other,
        ) by {
            lemma_upsert_other(entries, key, value, other);
        }
        if distinct_keys(entries) {
            assert forall|i: int, j: int| 0 <= i < j < after.len() implies (#[trigger] after[i]).0
                != (#[trigger] after[j]).0 by {
                if j < at {
                    assert(after[i] == entries[i] && after[j] == entries[j]);
                } else {
                    assert(after[i] == entries[i]);
                }
            }
        }
    }
}

proof fn lemma_upsert_other(entries: Entries, key: Seq<char>, value: Seq<char>, other: Seq<char>)
    requires
        other != key,
    ensures
        lookup(upsert(entries, key, value), other) == lookup(entries, other),
{
    let after = upsert(entries, key, value);
    if has_key(entries, key) {
        lemma_has_key_first(entries, key);
    }
    if has_key(entries, other) {
        lemma_has_key_first(entries, other);
        let at = first_index(entries, other);
        assert(after[at] == entries[at]);
        assert forall|j: int| 0 <= j < at implies (#[trigger] after[j]).0 != other by {
            assert(entries[j].0 != other);
        }
        assert(is_first_at(after, other, at));
        lemma_first_index(after, other, at);
    } else {
        if has_key(after, other) {
            let i = choose|i: int| 0 <= i < after.len() && (#[trigger] after[i]).0 == other;
            assert(i < entries.len());
            assert(entries[i].0 == other);
        }
    }
}

/// A table built by insertions has distinct keys.
pub proof fn lemma_table_of_distinct(pairs: Entries)
    ensures
        distinct_keys(table_of(pairs)),
    decreases pairs.len(),
{
    if pairs.len() > 0 {
        lemma_table_of_distinct(pairs.drop_last());
        lemma_upsert(table_of(pairs.drop_last()), pairs.last().0, pairs.last().1);
    }
}

/// Name/version pairs with distinct names, in the order of first insertion.
#[derive(Debug, PartialEq, Eq)]
pub struct VersionTable {
    entries: Vec<(String, String)>,
}

impl View for VersionTable {
    type V = Entries;

    closed spec fn view(&self) -> Entries {
        self.entries.deep_view()
    }
}

impl VersionTable {
    #[verifier::type_invariant]
    spec fn distinct(self) -> bool {
        distinct_keys(self.entries.deep_view())
    }

    /// An empty table.
    pub fn new() -> (table: Self)
        ensures
            table@ == Seq::<(Seq<char>, Seq<char>)>::empty(),
    {
        let table = VersionTable { entries: Vec::new() };
        assert(table.entries.deep_view() =~= Seq::empty());
        table
    }

    /// The number of names.
    pub fn len(&self) -> (n: usize)
        ensures
            n == self@.len(),
    {
        self.entries.len()
    }

    /// Whether the table holds no name.
    pub fn is_empty(&self) -> (empty: bool)
        ensures
            empty == (self@.len() == 0),
    {
        self.entries.len() == 0
    }

    /// The pairs, in table order.
    pub fn entries(&self) -> (pairs: &Vec<(String, String)>)
        ensures
            pairs.deep_view() == self@,
            distinct_keys(self@),
    {
        proof {
            use_type_invariant(self);
        }
        &self.entries
    }

    /// The position of `name`, if the table holds it.
    fn position(&self, name: &String) -> (at: Option<usize>)
        ensures
            match at {
                Some(i) => is_first_at(self@, name@, i as int),
                None => !has_key(self@, name@),
            },
    {
        let mut index: usize = 0;
        while index < self.entries.len()
            invariant
                index <= self.entries.len(),
                forall|j: int| 0 <= j < index ==> (#[trigger] self@[j]).0 != name@,
            decreases self.entries.len() - index,
        {
            if self.entries[index].0 == *name {
                return Some(index);
            }
            index = index + 1;
        }
        None
    }

    /// The version recorded for `name`.
    pub fn get(&self, name: &str) -> (version: Option<&String>)
        ensures
            version.deep_view() == lookup(self@, name@),
    {
        let key = name.to_owned();
        match self.position(&key) {
            Some(index) => {
                proof {
                    lemma_first_index(self@, name@, index as int);
                }
                Some(&self.entries[index].1)
            },
            None => None,
        }
    }

    /// Binds `name` to `version`, replacing an earlier binding in place.
    pub fn insert(&mut self, name: String, version: String)
        ensures
            final(self)@ == upsert(old(self)@, name@, version@),
            distinct_keys(final(self)@),
    {
        proof {
            use_type_invariant(&*self);
            lemma_upsert(self@, name@, version@);
        }
        let at = self.position(&name);
        let mut taken = VersionTable::new();
        core::mem::swap(self, &mut taken);
        let mut entries = taken.entries;
        match at {
            Some(index) => {
                proof {
                    lemma_first_index(old(self)@, name@, index as int);
                }
                entries.set(index, (name, version));
            },
            None => {
                entries.push((name, version));
            },
        }
        assert(entries.deep_view() =~= upsert(old(self)@, name@, version@));
        *self = VersionTable { entries };
    }
    /// The table that results from inserting `pairs` one after the other.
    pub fn from_pairs(pairs: &Vec<(String, String)>) -> (table: Self)
        ensures
            table@ == table_of(pairs.deep_view()),
            distinct_keys(table@),
    {
        let mut table = VersionTable::new();
        let mut index: usize = 0;
        assert(pairs.deep_view().take(0) =~= Seq::empty());
        while index < pairs.len()
            invariant
                index <= pairs.len(),
                table@ == table_of(pairs.deep_view().take(index as int)),
            decreases pairs.len() - index,
        {
            proof {
                let next = pairs.deep_view().take(index + 1);
                assert(next.drop_last() =~= pairs.deep_view().take(index as int));
                assert(next.last() == (pairs@[index as int].0@, pairs@[index as int].1@));
            }
            table.insert(pairs[index].0.clone(), pairs[index].1.clone());
            index = index + 1;
        }
        assert(pairs.deep_view().take(index as int) =~= pairs.deep_view());
        proof {
            lemma_table_of_distinct(pairs.deep_view());
        }
        table
    }

    /// The pairs, in table order, leaving the table behind.
    pub fn into_entries(self) -> (pairs: Vec<(String, String)>)
        ensures
            pairs.deep_view() == self@,
            distinct_keys(self@),
    {
        proof {
            use_type_invariant(&self);
        }
        self.entries
    }
}

} // verus!
