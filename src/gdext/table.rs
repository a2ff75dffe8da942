//! An ordered table of string keys and string values, with each key held once:
//! the shape of every flat section of the manifest.
use vstd::prelude::*;

verus! {

/// An entry of a table or of a list of pending insertions: key and value.
pub type Entry = (Seq<char>, Seq<char>);

/// The keys of `s`, in order.
pub open spec fn keys_of(s: Seq<Entry>) -> Seq<Seq<char>> {
    s.map_values(|e: Entry| e.0)
}

/// The value that the last entry of `s` with key `k` holds, if any.
pub open spec fn lookup(s: Seq<Entry>, k: Seq<char>) -> Option<Seq<char>>
    decreases s.len(),
{
    if s.len() == 0 {
        None
    } else if s.last().0 == k {
        Some(s.last().1)
    } else {
        lookup(s.drop_last(), k)
    }
}

/// `s` with key `k` set to `v`: the value replaced in place where the key is
/// present, a new entry at the end where it is not.
pub open spec fn table_insert(s: Seq<Entry>, k: Seq<char>, v: Seq<char>) -> Seq<Entry> {
    if has_key(s, k) {
        s.update(key_position(s, k), (k, v))
    } else {
        s.push((k, v))
    }
}

/// Whether an entry of `s` has key `k`.
pub open spec fn has_key(s: Seq<Entry>, k: Seq<char>) -> bool {
    exists|i: int| 0 <= i < s.len() && s[i].0 == k
}

/// A position of `s` whose entry has key `k`, where there is one.
pub open spec fn key_position(s: Seq<Entry>, k: Seq<char>) -> int {
    choose|i: int| 0 <= i < s.len() && s[i].0 == k
}

/// `s` after inserting each entry of `es` in turn.
pub open spec fn insert_all(s: Seq<Entry>, es: Seq<Entry>) -> Seq<Entry>
    decreases es.len(),
{
    if es.len() == 0 {
        s
    } else {
        table_insert(insert_all(s, es.drop_last()), es.last().0, es.last().1)
    }
}

/// Table of string keys and values, each key held once, in insertion order.
#[derive(Debug, Clone)]
pub struct StringTable {
    entries: Vec<(String, String)>,
}

impl View for StringTable {
    type V = Seq<Entry>;

    closed spec fn view(&self) -> Seq<Entry> {
        self.entries@.map_values(|e: (String, String)| (e.0@, e.1@))
    }
}

impl StringTable {
    /// The keys of the table are distinct.
    pub open spec fn well_formed(&self) -> bool {
        keys_of(self@).no_duplicates()
    }

    /// Creates an empty table.
    pub fn new() -> (r: Self)
        ensures
            r@ == Seq::<Entry>::empty(),
            r.well_formed(),
    {
        let r = StringTable { entries: Vec::new() };
        assert(r@ =~= Seq::<Entry>::empty());
        r
    }

    /// The number of entries.
    pub fn len(&self) -> (r: usize)
        ensures
            r == self@.len(),
    {
        self.entries.len()
    }

    /// Whether the table has no entry.
    pub fn is_empty(&self) -> (r: bool)
        ensures
            r == (self@.len() == 0),
    {
        self.entries.len() == 0
    }

    /// The position of `key` in the table, if it is there.
    fn position(&self, key: &String) -> (r: Option<usize>)
        ensures
            match r {
                Some(i) => i < self@.len() && self@[i as int].0 == key@,
                None => forall|i: int| 0 <= i < self@.len() ==> self@[i].0 != key@,
            },
    {
        let mut i: usize = 0;
        while i < self.entries.len()
            invariant
                i <= self.entries@.len(),
                self@.len() == self.entries@.len(),
                forall|j: int| 0 <= j < i ==> self@[j].0 != key@,
            decreases self.entries@.len() - i,
        {
            if self.entries[i].0 == *key {
                return Some(i);
            }
            i += 1;
        }
        None
    }

    /// The value held for `key`, if any.
    pub fn get(&self, key: &String) -> (r: Option<String>)
        requires
            self.well_formed(),
        ensures
            match r {
                Some(v) => lookup(self@, key@) == Some(v@),
                None => lookup(self@, key@) is None,
            },
    {
        match self.position(key) {
            Some(i) => {
                proof {
                    lemma_lookup_at(self@, i as int);
                }
                Some(self.entries[i].1.clone())
            },
            None => {
                proof {
                    lemma_lookup_absent(self@, key@);
                }
                None
            },
        }
    }

    /// Sets `key` to `value`, in place where the key is present, at the end
    /// where it is not.
    pub fn insert(&mut self, key: String, value: String)
        requires
            old(self).well_formed(),
        ensures
            final(self)@ == table_insert(old(self)@, key@, value@),
            final(self).well_formed(),
    {
        proof {
            lemma_insert_keeps_keys_distinct(self@, key@, value@);
        }
        let ghost k = key@;
        let ghost v = value@;
        match self.position(&key) {
            Some(i) => {
                proof {
                    assert(has_key(old(self)@, k));
                    let j = key_position(old(self)@, k);
                    assert(keys_of(old(self)@)[j] == keys_of(old(self)@)[i as int]);
                }
                self.entries.set(i, (key, value));
                assert(self@ =~= table_insert(old(self)@, k, v));
            },
            None => {
                self.entries.push((key, value));
                assert(self@ =~= table_insert(old(self)@, k, v));
            },
        }
    }

    /// The entries, in order.
    pub fn entries(&self) -> (r: Vec<(String, String)>)
        ensures
            r@.map_values(|e: (String, String)| (e.0@, e.1@)) == self@,
    {
        let mut r: Vec<(String, String)> = Vec::new();
        let mut i: usize = 0;
        while i < self.entries.len()
            invariant
                i <= self.entries@.len(),
                r@.len() == i,
                forall|j: int|
                    0 <= j < i ==> r@[j].0@ == self@[j].0 && r@[j].1@ == self@[j].1,
            decreases self.entries@.len() - i,
        {
            let k = self.entries[i].0.clone();
            let v = self.entries[i].1.clone();
            r.push((k, v));
            i += 1;
        }
        assert(r@.map_values(|e: (String, String)| (e.0@, e.1@)) =~= self@);
        r
    }
}

/// In a sequence with distinct keys, the lookup of the key at position `i`
/// yields the value there.
pub proof fn lemma_lookup_at(s: Seq<Entry>, i: int)
    requires
        keys_of(s).no_duplicates(),
        0 <= i < s.len(),
    ensures
        lookup(s, s[i].0) == Some(s[i].1),
    decreases s.len(),
{
    if i != s.len() - 1 {
        assert(keys_of(s)[i] != keys_of(s)[s.len() - 1]);
        assert(keys_of(s.drop_last()) =~= keys_of(s).drop_last());
        lemma_lookup_at(s.drop_last(), i);
    }
}

/// A key that no entry holds has no value.
pub proof fn lemma_lookup_absent(s: Seq<Entry>, k: Seq<char>)
    requires
        forall|i: int| 0 <= i < s.len() ==> s[i].0 != k,
    ensures
        lookup(s, k) is None,
    decreases s.len(),
{
    if s.len() > 0 {
        lemma_lookup_absent(s.drop_last(), k);
    }
}

/// Inserting keeps the keys distinct.
pub proof fn lemma_insert_keeps_keys_distinct(s: Seq<Entry>, k: Seq<char>, v: Seq<char>)
    requires
        keys_of(s).no_duplicates(),
    ensures
        keys_of(table_insert(s, k, v)).no_duplicates(),
        keys_of(table_insert(s, k, v)).to_set() == keys_of(s).to_set().insert(k),
{
    let t = table_insert(s, k, v);
    if has_key(s, k) {
        let i = key_position(s, k);
        assert(keys_of(t) =~= keys_of(s));
        assert(keys_of(s).to_set().insert(k) =~= keys_of(s).to_set()) by {
            assert(keys_of(s)[i] == k);
        }
    } else {
        assert(keys_of(t) =~= keys_of(s).push(k));
        assert(keys_of(t).to_set() =~= keys_of(s).to_set().insert(k)) by {
            assert forall|x|
                keys_of(t).contains(x) <==> keys_of(s).to_set().insert(k).contains(x) by {
                if keys_of(s).contains(x) {
                    let j = choose|j: int| 0 <= j < keys_of(s).len() && keys_of(s)[j] == x;
                    assert(keys_of(t)[j] == x);
                }
                if x == k {
                    assert(keys_of(t)[s.len() as int] == k);
                }
            }
        }
    }
}

/// After an insertion, the key holds the new value and every other key keeps
/// its own.
pub proof fn lemma_lookup_after_insert(s: Seq<Entry>, k: Seq<char>, v: Seq<char>, q: Seq<char>)
    requires
        keys_of(s).no_duplicates(),
    ensures
        lookup(table_insert(s, k, v), q) == if q == k {
            Some(v)
        } else {
            lookup(s, q)
        },
{
    let t = table_insert(s, k, v);
    lemma_insert_keeps_keys_distinct(s, k, v);
    if has_key(s, k) {
        let i = key_position(s, k);
        lemma_lookup_at(t, i);
        if q != k {
            if exists|j: int| 0 <= j < s.len() && s[j].0 == q {
                let j = choose|j: int| 0 <= j < s.len() && s[j].0 == q;
                lemma_lookup_at(t, j);
                lemma_lookup_at(s, j);
            } else {
                lemma_lookup_absent(s, q);
                lemma_lookup_absent(t, q);
            }
        }
    } else {
        assert(t.drop_last() =~= s);
        assert(t.last() == (k, v));
    }
}

/// After inserting a list of entries, a key holds the value of the last
/// entry of the list with that key, or else the value it held before.
pub proof fn lemma_lookup_after_insert_all(s: Seq<Entry>, es: Seq<Entry>, q: Seq<char>)
    requires
        keys_of(s).no_duplicates(),
    ensures
        keys_of(insert_all(s, es)).no_duplicates(),
        lookup(insert_all(s, es), q) == if lookup(es, q) is Some {
            lookup(es, q)
        } else {
            lookup(s, q)
        },
    decreases es.len(),
{
    if es.len() > 0 {
        lemma_lookup_after_insert_all(s, es.drop_last(), q);
        let prev = insert_all(s, es.drop_last());
        lemma_insert_keeps_keys_distinct(prev, es.last().0, es.last().1);
        lemma_lookup_after_insert(prev, es.last().0, es.last().1, q);
    }
}

/// Inserting entries whose keys are distinct into an empty table yields them
/// as they are.
pub proof fn lemma_insert_all_distinct(es: Seq<Entry>)
    requires
        keys_of(es).no_duplicates(),
    ensures
        insert_all(Seq::empty(), es) == es,
    decreases es.len(),
{
    if es.len() > 0 {
        let init = es.drop_last();
        assert(keys_of(init) =~= keys_of(es).drop_last());
        lemma_insert_all_distinct(init);
        assert forall|i: int| 0 <= i < init.len() implies init[i].0 != es.last().0 by {
            assert(keys_of(es)[i] != keys_of(es)[es.len() - 1]);
        }
        assert(init.push(es.last()) =~= es);
    }
}

/// Inserting one entry more is inserting it after the others.
pub proof fn lemma_insert_all_push(s: Seq<Entry>, es: Seq<Entry>, e: Entry)
    ensures
        insert_all(s, es.push(e)) == table_insert(insert_all(s, es), e.0, e.1),
{
    assert(es.push(e).drop_last() =~= es);
}

} // verus!
