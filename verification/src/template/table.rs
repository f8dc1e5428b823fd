//! A table from strings to strings, kept as a list of entries.

use crate::text::{chars_eq, has_at};
use vstd::prelude::*;

verus! {

/// A table from keys to values. Entries are kept in the order in which they
/// were made; where a key was entered more than once, the latest entry is the
/// one that counts.
pub struct Table {
    entries: Vec<(Vec<char>, Vec<char>)>,
}

/// The map that `entries` stand for: each entry binds its key, a later one
/// over an earlier one.
pub closed spec fn bindings(entries: Seq<(Vec<char>, Vec<char>)>) -> Map<Seq<char>, Seq<char>>
    decreases entries.len(),
{
    if entries.len() == 0 {
        Map::empty()
    } else {
        bindings(entries.drop_last()).insert(entries.last().0@, entries.last().1@)
    }
}

/// The entry at `j` gives the value of its key where no later entry binds
/// that key.
proof fn lemma_bindings_latest(entries: Seq<(Vec<char>, Vec<char>)>, j: int)
    requires
        0 <= j < entries.len(),
        forall|i: int| j < i < entries.len() ==> (#[trigger] entries[i]).0@ != entries[j].0@,
    ensures
        bindings(entries).contains_key(entries[j].0@),
        bindings(entries)[entries[j].0@] == entries[j].1@,
    decreases entries.len(),
{
    if j < entries.len() - 1 {
        assert(entries.last().0@ != entries[j].0@);
        assert(entries.drop_last()[j] == entries[j]);
        assert forall|i: int| j < i < entries.drop_last().len() implies (
        #[trigger] entries.drop_last()[i]).0@ != entries.drop_last()[j].0@ by {
            assert(entries.drop_last()[i] == entries[i]);
        }
        lemma_bindings_latest(entries.drop_last(), j);
    }
}

/// A key that no entry binds is not bound.
proof fn lemma_bindings_absent(entries: Seq<(Vec<char>, Vec<char>)>, k: Seq<char>)
    requires
        forall|i: int| 0 <= i < entries.len() ==> (#[trigger] entries[i]).0@ != k,
    ensures
        !bindings(entries).contains_key(k),
    decreases entries.len(),
{
    if entries.len() > 0 {
        assert(entries.last().0@ != k);
        assert forall|i: int| 0 <= i < entries.drop_last().len() implies (
        #[trigger] entries.drop_last()[i]).0@ != k by {
            assert(entries.drop_last()[i] == entries[i]);
        }
        lemma_bindings_absent(entries.drop_last(), k);
    }
}

/// The keys of `entries`, each once, in the order in which they first occur.
pub closed spec fn first_keys(entries: Seq<(Vec<char>, Vec<char>)>) -> Seq<Seq<char>>
    decreases entries.len(),
{
    if entries.len() == 0 {
        Seq::empty()
    } else {
        let before = first_keys(entries.drop_last());
        if before.contains(entries.last().0@) {
            before
        } else {
            before.push(entries.last().0@)
        }
    }
}

/// [`first_keys`] holds no key twice, and holds exactly the keys that are
/// bound.
proof fn lemma_first_keys(entries: Seq<(Vec<char>, Vec<char>)>)
    ensures
        first_keys(entries).no_duplicates(),
        forall|k: Seq<char>|
            #![trigger first_keys(entries).contains(k)]
            #![trigger bindings(entries).contains_key(k)]
            first_keys(entries).contains(k) <==> bindings(entries).contains_key(k),
    decreases entries.len(),
{
    if entries.len() > 0 {
        let before = first_keys(entries.drop_last());
        let last = entries.last().0@;
        lemma_first_keys(entries.drop_last());
        if !before.contains(last) {
            assert(before.push(last).no_duplicates()) by {
                assert forall|i: int, j: int|
                    0 <= i < before.len() + 1 && 0 <= j < before.len() + 1 && i != j implies before.push(
                    last,
                )[i] != before.push(last)[j] by {
                    if i < before.len() && j < before.len() {
                    } else if i < before.len() {
                        assert(before.contains(before[i]));
                    } else {
                        assert(before.contains(before[j]));
                    }
                }
            }
        }
        assert forall|k: Seq<char>| first_keys(entries).contains(k) <==> bindings(
            entries,
        ).contains_key(k) by {
            if before.contains(k) {
                let i = choose|i: int| 0 <= i < before.len() && before[i] == k;
                if !before.contains(last) {
                    assert(before.push(last)[i] == k);
                }
            }
            if k == last && !before.contains(last) {
                assert(before.push(last)[before.len() as int] == k);
            }
            if first_keys(entries).contains(k) && !before.contains(k) {
                let i = choose|i: int|
                    0 <= i < first_keys(entries).len() && first_keys(entries)[i] == k;
                assert(k == last);
            }
        }
    }
}

/// The strings that the vectors of `list` hold.
pub open spec fn refs_view(list: Seq<&Vec<char>>) -> Seq<Seq<char>> {
    Seq::new(list.len(), |i: int| list[i]@)
}

/// Whether `key` is among `list`.
fn holds(list: &Vec<&Vec<char>>, key: &Vec<char>) -> (r: bool)
    ensures
        r == refs_view(list@).contains(key@),
{
    let mut i: usize = 0;
    while i < list.len()
        invariant
            i <= list.len(),
            forall|j: int| 0 <= j < i ==> refs_view(list@)[j] != key@,
        decreases list.len() - i,
    {
        if chars_eq(list[i], key) {
            assert(refs_view(list@)[i as int] == key@);
            return true;
        }
        i = i + 1;
    }
    false
}

impl View for Table {
    type V = Map<Seq<char>, Seq<char>>;

    closed spec fn view(&self) -> Map<Seq<char>, Seq<char>> {
        bindings(self.entries@)
    }
}

impl Table {
    /// The keys that are bound, each once, in the order in which they were
    /// first entered.
    pub closed spec fn keys(&self) -> Seq<Seq<char>> {
        first_keys(self.entries@)
    }

    /// The keys hold no key twice, and hold exactly the keys that are bound.
    pub proof fn lemma_keys(self)
        ensures
            self.keys().no_duplicates(),
            forall|k: Seq<char>|
                #![trigger self.keys().contains(k)]
                #![trigger self@.contains_key(k)]
                self.keys().contains(k) <==> self@.contains_key(k),
    {
        lemma_first_keys(self.entries@);
    }

    /// A table without entries.
    pub fn new() -> (r: Self)
        ensures
            r@ == Map::<Seq<char>, Seq<char>>::empty(),
            r.keys() == Seq::<Seq<char>>::empty(),
    {
        Table { entries: Vec::new() }
    }

    /// Enters `value` under `key`, in place of the value that `key` had.
    pub fn insert(&mut self, key: Vec<char>, value: Vec<char>)
        ensures
            final(self)@ == old(self)@.insert(key@, value@),
            final(self).keys() == (if old(self).keys().contains(key@) {
                old(self).keys()
            } else {
                old(self).keys().push(key@)
            }),
    {
        self.entries.push((key, value));
        assert(self.entries@.drop_last() == old(self).entries@);
    }

    /// The keys that are bound, each once, in the order in which they were
    /// first entered.
    pub fn distinct_keys(&self) -> (r: Vec<&Vec<char>>)
        ensures
            refs_view(r@) == self.keys(),
    {
        let mut found: Vec<&Vec<char>> = Vec::new();
        let mut i: usize = 0;
        assert(self.entries@.take(0) == Seq::<(Vec<char>, Vec<char>)>::empty());
        assert(refs_view(found@) =~= Seq::<Seq<char>>::empty());
        while i < self.entries.len()
            invariant
                i <= self.entries.len(),
                refs_view(found@) == first_keys(self.entries@.take(i as int)),
            decreases self.entries.len() - i,
        {
            let ghost upto = self.entries@.take(i + 1);
            assert(upto.drop_last() == self.entries@.take(i as int));
            assert(upto.last() == self.entries@[i as int]);
            let key = &self.entries[i].0;
            if !holds(&found, key) {
                let ghost before = refs_view(found@);
                found.push(key);
                assert(refs_view(found@) =~= before.push(key@));
            }
            i = i + 1;
        }
        assert(self.entries@.take(i as int) == self.entries@);
        found
    }

    /// The value of the key `t[start..start + len]`, if that key is bound.
    pub fn find(&self, t: &Vec<char>, start: usize, len: usize) -> (r: Option<&Vec<char>>)
        requires
            start + len <= t.len(),
        ensures
            match r {
                Some(value) => {
                    &&& self@.contains_key(t@.subrange(start as int, start + len))
                    &&& self@[t@.subrange(start as int, start + len)] == value@
                },
                None => !self@.contains_key(t@.subrange(start as int, start + len)),
            },
    {
        let ghost k = t@.subrange(start as int, start + len);
        let mut j: usize = self.entries.len();
        while j > 0
            invariant
                j <= self.entries.len(),
                start + len <= t.len(),
                k == t@.subrange(start as int, start + len),
                forall|i: int| j <= i < self.entries.len() ==> (#[trigger] self.entries[i]).0@ != k,
            decreases j,
        {
            j = j - 1;
            let key = &self.entries[j].0;
            if key.len() == len && has_at(t, start, key) {
                proof {
                    lemma_bindings_latest(self.entries@, j as int);
                }
                return Some(&self.entries[j].1);
            }
        }
        proof {
            lemma_bindings_absent(self.entries@, k);
        }
        None
    }

    /// The value of `key`, if it is bound.
    pub fn get(&self, key: &Vec<char>) -> (r: Option<&Vec<char>>)
        ensures
            match r {
                Some(value) => self@.contains_key(key@) && self@[key@] == value@,
                None => !self@.contains_key(key@),
            },
    {
        assert(key@.subrange(0, key.len() as int) == key@);
        self.find(key, 0, key.len())
    }
}

} // verus!
