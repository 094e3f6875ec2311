use vstd::prelude::*;

use crate::error::ErrorKind;
use crate::program_data::{ModuleSpec, ModuleSpecView};

verus! {

/// A module record stored under its key.
pub type Entry = (String, ModuleSpec);

/// Whether some entry is stored under key `k`.
pub open spec fn has_key(s: Seq<Entry>, k: Seq<char>) -> bool {
    exists|i: int| 0 <= i < s.len() && (#[trigger] s[i]).0@ == k
}

/// No two entries share a key.
pub open spec fn keys_distinct(s: Seq<Entry>) -> bool {
    forall|i: int, j: int|
        0 <= i < s.len() && 0 <= j < s.len() && i != j ==> (#[trigger] s[i]).0@ != (#[trigger] s[j]).0@
}

/// The keyed collection that a list of entries with distinct keys stands for.
pub open spec fn entries_map(s: Seq<Entry>) -> Map<Seq<char>, ModuleSpecView> {
    Map::new(
        |k: Seq<char>| has_key(s, k),
        |k: Seq<char>| s[choose|i: int| 0 <= i < s.len() && (#[trigger] s[i]).0@ == k].1@,
    )
}

proof fn lemma_entry_in_map(s: Seq<Entry>, i: int)
    requires
        keys_distinct(s),
        0 <= i < s.len(),
    ensures
        entries_map(s).contains_key(s[i].0@),
        entries_map(s)[s[i].0@] == s[i].1@,
{
    let k = s[i].0@;
    assert(has_key(s, k));
    let j = choose|j: int| 0 <= j < s.len() && (#[trigger] s[j]).0@ == k;
    assert(j == i);
}

proof fn lemma_map_after_update(s: Seq<Entry>, i: int, e: Entry)
    requires
        keys_distinct(s),
        0 <= i < s.len(),
        s[i].0@ == e.0@,
    ensures
        keys_distinct(s.update(i, e)),
        entries_map(s.update(i, e)) == entries_map(s).insert(e.0@, e.1@),
{
    let t = s.update(i, e);
    assert(keys_distinct(t)) by {
        assert forall|a: int, b: int|
            0 <= a < t.len() && 0 <= b < t.len() && a != b implies (#[trigger] t[a]).0@ != (#[trigger] t[b]).0@ by {
            assert(s[a].0@ != s[b].0@);
        }
    }
    assert forall|k: Seq<char>| #[trigger] has_key(t, k) == (has_key(s, k) || k == e.0@) by {
        if has_key(s, k) {
            let j = choose|j: int| 0 <= j < s.len() && (#[trigger] s[j]).0@ == k;
            assert(t[j].0@ == k);
        }
        if has_key(t, k) {
            let j = choose|j: int| 0 <= j < t.len() && (#[trigger] t[j]).0@ == k;
            assert(s[j].0@ == k);
        }
        if k == e.0@ {
            assert(t[i].0@ == k);
        }
    }
    assert forall|k: Seq<char>| #[trigger] has_key(t, k) implies entries_map(t)[k]
        == entries_map(s).insert(e.0@, e.1@)[k] by {
        let j = choose|j: int| 0 <= j < t.len() && (#[trigger] t[j]).0@ == k;
        lemma_entry_in_map(t, j);
        if k != e.0@ {
            assert(j != i);
            lemma_entry_in_map(s, j);
        }
    }
    assert(entries_map(t) =~= entries_map(s).insert(e.0@, e.1@));
}

proof fn lemma_map_after_push(s: Seq<Entry>, e: Entry)
    requires
        keys_distinct(s),
        !has_key(s, e.0@),
    ensures
        keys_distinct(s.push(e)),
        entries_map(s.push(e)) == entries_map(s).insert(e.0@, e.1@),
{
    let t = s.push(e);
    let n = s.len() as int;
    assert(keys_distinct(t)) by {
        assert forall|a: int, b: int|
            0 <= a < t.len() && 0 <= b < t.len() && a != b implies (#[trigger] t[a]).0@ != (#[trigger] t[b]).0@ by {
            if a == n {
                assert(s[b].0@ != e.0@);
            } else if b == n {
                assert(s[a].0@ != e.0@);
            } else {
                assert(s[a].0@ != s[b].0@);
            }
        }
    }
    assert forall|k: Seq<char>| #[trigger] has_key(t, k) == (has_key(s, k) || k == e.0@) by {
        if has_key(s, k) {
            let j = choose|j: int| 0 <= j < s.len() && (#[trigger] s[j]).0@ == k;
            assert(t[j].0@ == k);
        }
        if has_key(t, k) {
            let j = choose|j: int| 0 <= j < t.len() && (#[trigger] t[j]).0@ == k;
            if j < n {
                assert(s[j].0@ == k);
            }
        }
        if k == e.0@ {
            assert(t[n].0@ == k);
        }
    }
    assert forall|k: Seq<char>| #[trigger] has_key(t, k) implies entries_map(t)[k]
        == entries_map(s).insert(e.0@, e.1@)[k] by {
        let j = choose|j: int| 0 <= j < t.len() && (#[trigger] t[j]).0@ == k;
        lemma_entry_in_map(t, j);
        if k != e.0@ {
            assert(j != n);
            lemma_entry_in_map(s, j);
        }
    }
    assert(entries_map(t) =~= entries_map(s).insert(e.0@, e.1@));
}

/// Where key `name` stands in `s`, if anywhere.
fn find_entry(s: &Vec<Entry>, name: &String) -> (r: Option<usize>)
    requires
        keys_distinct(s@),
    ensures
        match r {
            Some(i) => i < s@.len() && s@[i as int].0@ == name@,
            None => !has_key(s@, name@),
        },
{
    let mut i: usize = 0;
    while i < s.len()
        invariant
            i <= s@.len(),
            forall|j: int| 0 <= j < i ==> (#[trigger] s@[j]).0@ != name@,
        decreases s@.len() - i,
    {
        if s[i].0 == *name {
            return Some(i);
        }
        i = i + 1;
    }
    None
}

fn clone_entries(s: &Vec<Entry>) -> (r: Vec<Entry>)
    ensures
        r@.len() == s@.len(),
        forall|i: int| 0 <= i < s@.len() ==> (#[trigger] r@[i]).0@ == s@[i].0@ && r@[i].1@ == s@[i].1@,
{
    let mut r: Vec<Entry> = Vec::new();
    let mut i: usize = 0;
    while i < s.len()
        invariant
            i <= s@.len(),
            r@.len() == i,
            forall|j: int| 0 <= j < i ==> (#[trigger] r@[j]).0@ == s@[j].0@ && r@[j].1@ == s@[j].1@,
        decreases s@.len() - i,
    {
        r.push((s[i].0.clone(), s[i].1.clone()));
        i = i + 1;
    }
    r
}

proof fn lemma_same_map(s: Seq<Entry>, t: Seq<Entry>)
    requires
        keys_distinct(s),
        s.len() == t.len(),
        forall|i: int| 0 <= i < s.len() ==> (#[trigger] t[i]).0@ == s[i].0@ && t[i].1@ == s[i].1@,
    ensures
        keys_distinct(t),
        entries_map(t) == entries_map(s),
{
    assert(keys_distinct(t)) by {
        assert forall|a: int, b: int|
            0 <= a < t.len() && 0 <= b < t.len() && a != b implies (#[trigger] t[a]).0@ != (#[trigger] t[b]).0@ by {
            assert(s[a].0@ != s[b].0@);
        }
    }
    assert forall|k: Seq<char>| #[trigger] has_key(t, k) == has_key(s, k) by {
        if has_key(s, k) {
            let j = choose|j: int| 0 <= j < s.len() && (#[trigger] s[j]).0@ == k;
            assert(t[j].0@ == k);
        }
        if has_key(t, k) {
            let j = choose|j: int| 0 <= j < t.len() && (#[trigger] t[j]).0@ == k;
            assert(s[j].0@ == k);
        }
    }
    assert forall|k: Seq<char>| #[trigger] has_key(t, k) implies entries_map(t)[k] == entries_map(s)[k] by {
        let j = choose|j: int| 0 <= j < t.len() && (#[trigger] t[j]).0@ == k;
        lemma_entry_in_map(t, j);
        lemma_entry_in_map(s, j);
    }
    assert(entries_map(t) =~= entries_map(s));
}

/// The persisted keyed store of module records. `insert` changes the
/// records held in memory; `flush` makes them the durable state, which is
/// then owed to storage until `take_unsaved` hands it out.
pub struct Registry {
    live: Vec<Entry>,
    durable: Vec<Entry>,
    unsaved: bool,
}

pub struct RegistryView {
    /// The records held in memory, by name.
    pub records: Map<Seq<char>, ModuleSpecView>,
    /// The records as of the last flush.
    pub durable: Map<Seq<char>, ModuleSpecView>,
    /// Whether a flush has happened that storage has not yet been given.
    pub unsaved: bool,
}

impl RegistryView {
    /// The store after `spec` is inserted under `name`.
    pub open spec fn inserted(self, name: Seq<char>, spec: ModuleSpecView) -> RegistryView {
        RegistryView { records: self.records.insert(name, spec), ..self }
    }

    /// The store after a flush.
    pub open spec fn flushed(self) -> RegistryView {
        RegistryView { durable: self.records, unsaved: true, ..self }
    }

    /// What a retrieval under `name` gives: the record, if there is one.
    pub open spec fn retrieved(self, name: Seq<char>) -> Option<ModuleSpecView> {
        if self.records.contains_key(name) {
            Some(self.records[name])
        } else {
            None
        }
    }
}

/// The records after a write of `w` under `name`, where there is one.
pub open spec fn apply_write(
    recs: Map<Seq<char>, ModuleSpecView>,
    name: Seq<char>,
    w: Option<ModuleSpecView>,
) -> Map<Seq<char>, ModuleSpecView> {
    match w {
        Some(m) => recs.insert(name, m),
        None => recs,
    }
}

impl View for Registry {
    type V = RegistryView;

    closed spec fn view(&self) -> RegistryView {
        RegistryView {
            records: entries_map(self.live@),
            durable: entries_map(self.durable@),
            unsaved: self.unsaved,
        }
    }
}

impl Registry {
    pub closed spec fn wf(&self) -> bool {
        keys_distinct(self.live@) && keys_distinct(self.durable@)
    }

    /// An empty store.
    pub fn new() -> (r: Self)
        ensures
            r.wf(),
            r@.records == Map::<Seq<char>, ModuleSpecView>::empty(),
            r@.durable == Map::<Seq<char>, ModuleSpecView>::empty(),
            !r@.unsaved,
    {
        let r = Registry { live: Vec::new(), durable: Vec::new(), unsaved: false };
        assert(entries_map(r.live@) =~= Map::<Seq<char>, ModuleSpecView>::empty());
        r
    }

    /// A store holding what storage held: `entries`, one per name.
    pub fn open(entries: Vec<Entry>) -> (r: Self)
        requires
            keys_distinct(entries@),
        ensures
            r.wf(),
            r@.records == entries_map(entries@),
            r@.durable == entries_map(entries@),
            !r@.unsaved,
    {
        let durable = clone_entries(&entries);
        proof {
            lemma_same_map(entries@, durable@);
        }
        Registry { live: entries, durable, unsaved: false }
    }

    /// Whether a record is stored under `name`.
    pub fn contains(&self, name: &String) -> (r: bool)
        requires
            self.wf(),
        ensures
            r == self@.records.contains_key(name@),
    {
        find_entry(&self.live, name).is_some()
    }

    /// The record stored under `name`; `DbRetrieve` where there is none.
    pub fn retrieve(&self, name: &String) -> (r: Result<ModuleSpec, ErrorKind>)
        requires
            self.wf(),
        ensures
            match r {
                Ok(spec) => self@.retrieved(name@) == Some(spec@),
                Err(e) => self@.retrieved(name@).is_none() && e == ErrorKind::DbRetrieve,
            },
    {
        match find_entry(&self.live, name) {
            Some(i) => {
                proof {
                    lemma_entry_in_map(self.live@, i as int);
                }
                Ok(self.live[i].1.clone())
            },
            None => Err(ErrorKind::DbRetrieve),
        }
    }

    /// Stores `spec` under `name` in memory, replacing what was there.
    pub fn insert(&mut self, name: String, spec: ModuleSpec)
        requires
            old(self).wf(),
        ensures
            final(self).wf(),
            final(self)@ == old(self)@.inserted(name@, spec@),
    {
        match find_entry(&self.live, &name) {
            Some(i) => {
                proof {
                    lemma_map_after_update(self.live@, i as int, (name, spec));
                }
                self.live.set(i, (name, spec));
            },
            None => {
                proof {
                    lemma_map_after_push(self.live@, (name, spec));
                }
                self.live.push((name, spec));
            },
        }
    }

    /// Makes the records in memory the durable state.
    pub fn flush(&mut self)
        requires
            old(self).wf(),
        ensures
            final(self).wf(),
            final(self)@ == old(self)@.flushed(),
    {
        let durable = clone_entries(&self.live);
        proof {
            lemma_same_map(self.live@, durable@);
        }
        self.durable = durable;
        self.unsaved = true;
    }

    /// Stores `spec` under `name` and flushes, as one step.
    pub fn update(&mut self, name: String, spec: ModuleSpec)
        requires
            old(self).wf(),
        ensures
            final(self).wf(),
            final(self)@ == old(self)@.inserted(name@, spec@).flushed(),
    {
        self.insert(name, spec);
        self.flush();
    }

    /// The durable state, where a flush has not yet been handed to storage.
    pub fn take_unsaved(&mut self) -> (r: Option<Vec<Entry>>)
        requires
            old(self).wf(),
        ensures
            final(self).wf(),
            final(self)@.records == old(self)@.records,
            final(self)@.durable == old(self)@.durable,
            !final(self)@.unsaved,
            match r {
                Some(v) => old(self)@.unsaved && keys_distinct(v@) && entries_map(v@) == old(self)@.durable,
                None => !old(self)@.unsaved,
            },
    {
        if self.unsaved {
            let v = clone_entries(&self.durable);
            proof {
                lemma_same_map(self.durable@, v@);
            }
            self.unsaved = false;
            Some(v)
        } else {
            None
        }
    }
}

} // verus!
