//! A registry of counters and gauges.
//!
//! A metric is known by its key: its name, followed by its labels where it
//! has any. Counters and gauges are kept apart, each in the order in which
//! their keys were first used; that is the order in which they are exported.

use crate::text::{from_chars, push_decimal, push_str, decimal_of, str_eq};
use vstd::prelude::*;

verus! {

/// The labels of a metric with their strings as sequences of characters.
pub open spec fn labels_view(labels: Seq<(&str, &str)>) -> Seq<(Seq<char>, Seq<char>)> {
    Seq::new(labels.len(), |i: int| (labels[i].0@, labels[i].1@))
}

/// One label as it stands in a key: `name="value"`.
pub open spec fn label_of(label: (Seq<char>, Seq<char>)) -> Seq<char> {
    label.0 + "=\""@ + label.1 + "\""@
}

/// The labels as they stand in a key, separated by commas.
pub open spec fn labels_of(labels: Seq<(Seq<char>, Seq<char>)>) -> Seq<char>
    decreases labels.len(),
{
    if labels.len() == 0 {
        Seq::empty()
    } else if labels.len() == 1 {
        label_of(labels[0])
    } else {
        labels_of(labels.drop_last()) + ","@ + label_of(labels.last())
    }
}

/// The key of a metric: its name alone where it has no label, else the name,
/// the labels in braces, and a space.
pub open spec fn key_of(name: Seq<char>, labels: Seq<(Seq<char>, Seq<char>)>) -> Seq<char> {
    if labels.len() == 0 {
        name
    } else {
        name + "{"@ + labels_of(labels) + "} "@
    }
}

/// The place of the first entry of `entries` at or after `from` whose key is
/// `key`; the length of `entries` where there is none.
pub open spec fn position(entries: Seq<(Seq<char>, u64)>, key: Seq<char>, from: int) -> int
    decreases entries.len() - from,
{
    if from < 0 || from >= entries.len() {
        entries.len() as int
    } else if entries[from].0 == key {
        from
    } else {
        position(entries, key, from + 1)
    }
}

/// The value that `entries` hold for `key`; 0 where they hold none.
pub open spec fn value_in(entries: Seq<(Seq<char>, u64)>, key: Seq<char>) -> u64 {
    let p = position(entries, key, 0);
    if 0 <= p < entries.len() {
        entries[p].1
    } else {
        0
    }
}

/// `entries` with `value` for `key`: in place of the value it had, or as a new
/// entry at the end.
pub open spec fn stored(entries: Seq<(Seq<char>, u64)>, key: Seq<char>, value: u64) -> Seq<
    (Seq<char>, u64),
> {
    let p = position(entries, key, 0);
    if 0 <= p < entries.len() {
        entries.update(p, (key, value))
    } else {
        entries.push((key, value))
    }
}

/// [`position`] lies between `from` and the length, no entry before it from
/// `from` on has the key, and the entry at it has.
pub proof fn lemma_position(entries: Seq<(Seq<char>, u64)>, key: Seq<char>, from: int)
    requires
        0 <= from <= entries.len(),
    ensures
        from <= position(entries, key, from) <= entries.len(),
        forall|i: int| from <= i < position(entries, key, from) ==> (#[trigger] entries[i]).0 != key,
        position(entries, key, from) < entries.len() ==> entries[position(entries, key, from)].0
            == key,
    decreases entries.len() - from,
{
    if from < entries.len() && entries[from].0 != key {
        lemma_position(entries, key, from + 1);
    }
}

/// The first entry with the key `key` is at `p` where the entry at `p` has
/// that key and none before it has.
pub proof fn lemma_position_is(entries: Seq<(Seq<char>, u64)>, key: Seq<char>, p: int)
    requires
        0 <= p <= entries.len(),
        forall|i: int| 0 <= i < p ==> (#[trigger] entries[i]).0 != key,
        p < entries.len() ==> entries[p].0 == key,
    ensures
        position(entries, key, 0) == p,
{
    lemma_position(entries, key, 0);
    let q = position(entries, key, 0);
    if q < p {
        assert(entries[q].0 != key);
    }
    if p < q {
        assert(entries[p].0 != key);
    }
}

/// What was stored for a key is what is found for it, and storing for one key
/// leaves every other key as it was.
pub proof fn lemma_stored(
    entries: Seq<(Seq<char>, u64)>,
    key: Seq<char>,
    value: u64,
    other: Seq<char>,
)
    ensures
        value_in(stored(entries, key, value), key) == value,
        other != key ==> value_in(stored(entries, key, value), other) == value_in(entries, other),
{
    lemma_position(entries, key, 0);
    let p = position(entries, key, 0);
    let after = stored(entries, key, value);
    assert forall|i: int| 0 <= i < p implies (#[trigger] after[i]).0 != key by {
        assert(entries[i].0 != key);
    }
    lemma_position_is(after, key, p);
    if other != key {
        lemma_position(entries, other, 0);
        let q = position(entries, other, 0);
        assert forall|i: int| 0 <= i < q implies (#[trigger] after[i]).0 != other by {
            if i < entries.len() {
                if i != p {
                    assert(after[i] == entries[i]);
                }
            }
        }
        if q < entries.len() {
            assert(q != p);
            assert(after[q] == entries[q]);
            lemma_position_is(after, other, q);
        } else {
            lemma_position(after, other, 0);
            let q2 = position(after, other, 0);
            if q2 < after.len() {
                if q2 < entries.len() {
                    if q2 != p {
                        assert(after[q2] == entries[q2]);
                    }
                    assert(entries[q2].0 != other);
                }
            }
        }
    }
}

/// The lines that export `entries`: for each entry its key, a space, its
/// value in decimal, and a line feed.
pub open spec fn lines_of(entries: Seq<(Seq<char>, u64)>) -> Seq<char>
    decreases entries.len(),
{
    if entries.len() == 0 {
        Seq::empty()
    } else {
        lines_of(entries.drop_last()) + entries.last().0 + " "@ + decimal_of(
            entries.last().1 as nat,
        ) + "\n"@
    }
}

/// The entries of `v` with their keys as sequences of characters.
pub open spec fn entries_view(v: Seq<(String, u64)>) -> Seq<(Seq<char>, u64)> {
    Seq::new(v.len(), |i: int| (v[i].0@, v[i].1))
}

/// A registry of metrics.
#[derive(Debug)]
pub struct Metrics {
    counters: Vec<(String, u64)>,
    gauges: Vec<(String, u64)>,
}

/// The place of the entry of `entries` with the key `key`, if there is one.
fn find(entries: &Vec<(String, u64)>, key: &str) -> (r: Option<usize>)
    ensures
        match r {
            Some(p) => p < entries.len() && position(entries_view(entries@), key@, 0) == p,
            None => position(entries_view(entries@), key@, 0) == entries.len(),
        },
{
    let ghost model = entries_view(entries@);
    let mut i: usize = 0;
    while i < entries.len()
        invariant
            i <= entries.len(),
            model == entries_view(entries@),
            forall|j: int| 0 <= j < i ==> (#[trigger] model[j]).0 != key@,
        decreases entries.len() - i,
    {
        if str_eq(entries[i].0.as_str(), key) {
            proof {
                assert(model[i as int].0 == key@);
                lemma_position_is(model, key@, i as int);
            }
            return Some(i);
        }
        assert(model[i as int].0 != key@);
        i = i + 1;
    }
    proof {
        lemma_position_is(model, key@, entries.len() as int);
    }
    None
}

/// Stores `value` for `key` in `entries`.
fn store(entries: &mut Vec<(String, u64)>, key: String, value: u64)
    ensures
        entries_view(final(entries)@) == stored(entries_view(old(entries)@), key@, value),
{
    match find(entries, key.as_str()) {
        Some(p) => {
            entries.set(p, (key, value));
            assert(entries_view(entries@) =~= stored(entries_view(old(entries)@), key@, value));
        },
        None => {
            entries.push((key, value));
            assert(entries_view(entries@) =~= stored(entries_view(old(entries)@), key@, value));
        },
    }
}

/// The value that `entries` hold for `key`; 0 where they hold none.
fn value(entries: &Vec<(String, u64)>, key: &str) -> (r: u64)
    ensures
        r == value_in(entries_view(entries@), key@),
{
    match find(entries, key) {
        Some(p) => entries[p].1,
        None => 0,
    }
}

/// Appends the lines that export `entries` to `out`.
fn push_lines(out: &mut Vec<char>, entries: &Vec<(String, u64)>)
    ensures
        final(out)@ == old(out)@ + lines_of(entries_view(entries@)),
{
    let ghost model = entries_view(entries@);
    let mut i: usize = 0;
    assert(model.take(0) == Seq::<(Seq<char>, u64)>::empty());
    while i < entries.len()
        invariant
            i <= entries.len(),
            model == entries_view(entries@),
            out@ == old(out)@ + lines_of(model.take(i as int)),
        decreases entries.len() - i,
    {
        let ghost upto = model.take(i + 1);
        assert(upto.drop_last() == model.take(i as int));
        assert(upto.last() == model[i as int]);
        push_str(out, entries[i].0.as_str());
        push_str(out, " ");
        push_decimal(out, entries[i].1);
        push_str(out, "\n");
        assert(out@ =~= old(out)@ + lines_of(upto));
        i = i + 1;
    }
    assert(model.take(i as int) == model);
}

impl Metrics {
    /// The counters, in the order in which their keys were first used.
    pub closed spec fn counters(&self) -> Seq<(Seq<char>, u64)> {
        entries_view(self.counters@)
    }

    /// The gauges, in the order in which their keys were first used.
    pub closed spec fn gauges(&self) -> Seq<(Seq<char>, u64)> {
        entries_view(self.gauges@)
    }

    /// A registry without metrics.
    pub fn new() -> (r: Self)
        ensures
            r.counters() == Seq::<(Seq<char>, u64)>::empty(),
            r.gauges() == Seq::<(Seq<char>, u64)>::empty(),
    {
        let r = Metrics { counters: Vec::new(), gauges: Vec::new() };
        assert(r.counters() =~= Seq::<(Seq<char>, u64)>::empty());
        assert(r.gauges() =~= Seq::<(Seq<char>, u64)>::empty());
        r
    }

    /// The key of the metric `name` with the labels `labels`.
    pub fn make_key(name: &str, labels: &[(&str, &str)]) -> (r: String)
        ensures
            r@ == key_of(name@, labels_view(labels@)),
    {
        let ghost model = labels_view(labels@);
        let mut out: Vec<char> = Vec::new();
        push_str(&mut out, name);
        if labels.len() == 0 {
            return from_chars(&out);
        }
        push_str(&mut out, "{");
        let mut i: usize = 0;
        assert(model.take(0) == Seq::<(Seq<char>, Seq<char>)>::empty());
        while i < labels.len()
            invariant
                i <= labels.len(),
                model == labels_view(labels@),
                out@ == name@ + "{"@ + labels_of(model.take(i as int)),
            decreases labels.len() - i,
        {
            let ghost upto = model.take(i + 1);
            assert(upto.drop_last() == model.take(i as int));
            assert(upto.last() == model[i as int]);
            if i > 0 {
                push_str(&mut out, ",");
            }
            let label = &labels[i];
            push_str(&mut out, label.0);
            push_str(&mut out, "=\"");
            push_str(&mut out, label.1);
            push_str(&mut out, "\"");
            assert(out@ =~= name@ + "{"@ + labels_of(upto));
            i = i + 1;
        }
        assert(model.take(i as int) == model);
        push_str(&mut out, "} ");
        from_chars(&out)
    }

    /// Adds one to the counter `name` with the labels `labels`. A counter
    /// that was not there starts at 0; one that is full starts over.
    pub fn increment_counter(&mut self, name: &str, labels: &[(&str, &str)])
        ensures
            final(self).counters() == stored(
                old(self).counters(),
                key_of(name@, labels_view(labels@)),
                value_in(old(self).counters(), key_of(name@, labels_view(labels@))).wrapping_add(
                    1,
                ),
            ),
            final(self).gauges() == old(self).gauges(),
    {
        self.add_counter(name, 1, labels);
    }

    /// Adds `value` to the counter `name` with the labels `labels`. A counter
    /// that was not there starts at 0; the sum wraps around.
    pub fn add_counter(&mut self, name: &str, value: u64, labels: &[(&str, &str)])
        ensures
            final(self).counters() == stored(
                old(self).counters(),
                key_of(name@, labels_view(labels@)),
                value_in(old(self).counters(), key_of(name@, labels_view(labels@))).wrapping_add(
                    value,
                ),
            ),
            final(self).gauges() == old(self).gauges(),
    {
        let key = Metrics::make_key(name, labels);
        let sum = self::value(&self.counters, key.as_str()).wrapping_add(value);
        store(&mut self.counters, key, sum);
    }

    /// Sets the gauge `name` with the labels `labels` to `value`.
    pub fn set_gauge(&mut self, name: &str, value: u64, labels: &[(&str, &str)])
        ensures
            final(self).gauges() == stored(
                old(self).gauges(),
                key_of(name@, labels_view(labels@)),
                value,
            ),
            final(self).counters() == old(self).counters(),
    {
        let key = Metrics::make_key(name, labels);
        store(&mut self.gauges, key, value);
    }

    /// The value of the counter `name` with the labels `labels`; 0 where
    /// there is none.
    pub fn get_counter(&self, name: &str, labels: &[(&str, &str)]) -> (r: u64)
        ensures
            r == value_in(self.counters(), key_of(name@, labels_view(labels@))),
    {
        let key = Metrics::make_key(name, labels);
        self::value(&self.counters, key.as_str())
    }

    /// The value of the gauge `name` with the labels `labels`; 0 where there
    /// is none.
    pub fn get_gauge(&self, name: &str, labels: &[(&str, &str)]) -> (r: u64)
        ensures
            r == value_in(self.gauges(), key_of(name@, labels_view(labels@))),
    {
        let key = Metrics::make_key(name, labels);
        self::value(&self.gauges, key.as_str())
    }

    /// All metrics as text, one line each: the counters, then the gauges.
    pub fn export(&self) -> (r: String)
        ensures
            r@ == lines_of(self.counters()) + lines_of(self.gauges()),
    {
        let mut out: Vec<char> = Vec::new();
        push_lines(&mut out, &self.counters);
        push_lines(&mut out, &self.gauges);
        from_chars(&out)
    }
}

impl Default for Metrics {
    fn default() -> (r: Self)
        ensures
            r.counters() == Seq::<(Seq<char>, u64)>::empty(),
            r.gauges() == Seq::<(Seq<char>, u64)>::empty(),
    {
        Metrics::new()
    }
}

} // verus!
