//! Spans: units of work that are timed and told apart by their ids.

use crate::clock::{chance, elapsed_since, milliseconds, moment, unix_nanos};
use crate::text::{from_chars, hex_of, is_hex_digit, lemma_hex_digits, lemma_hex_len, push_hex};
use vstd::prelude::*;

verus! {

/// The id made of a time and a number: sixteen hexadecimal digits of each.
pub open spec fn id_of(nanos: u64, random: u64) -> Seq<char> {
    hex_of(nanos as nat, 16) + hex_of(random as nat, 16)
}

/// The id made of the time `nanos` and the number `random`.
pub fn format_id(nanos: u64, random: u64) -> (r: String)
    ensures
        r@ == id_of(nanos, random),
        r@.len() == 32,
{
    let mut out: Vec<char> = Vec::new();
    push_hex(&mut out, nanos, 16);
    push_hex(&mut out, random, 16);
    proof {
        lemma_hex_len(nanos as nat, 16);
        lemma_hex_len(random as nat, 16);
    }
    from_chars(&out)
}

/// Whether `s` is an id: made of some time and some number.
pub open spec fn is_id(s: Seq<char>) -> bool {
    exists|nanos: u64, random: u64| s == id_of(nanos, random)
}

/// An id has thirty-two characters, each a digit of base sixteen in lower
/// case.
pub proof fn lemma_id_is_hex(s: Seq<char>)
    requires
        is_id(s),
    ensures
        s.len() == 32,
        forall|i: int| 0 <= i < 32 ==> is_hex_digit(#[trigger] s[i]),
{
    let (nanos, random) = choose|nanos: u64, random: u64| s == id_of(nanos, random);
    lemma_hex_digits(nanos as nat, 16);
    lemma_hex_digits(random as nat, 16);
    assert forall|i: int| 0 <= i < 32 implies is_hex_digit(#[trigger] s[i]) by {
        if i < 16 {
            assert(s[i] == hex_of(nanos as nat, 16)[i]);
        } else {
            assert(s[i] == hex_of(random as nat, 16)[i - 16]);
        }
    }
}

/// A number drawn by chance.
pub fn rand_u64() -> u64 {
    chance()
}

/// A fresh id: made of the present time and a number drawn by chance.
pub fn generate_id() -> (r: String)
    ensures
        r@.len() == 32,
        is_id(r@),
{
    format_id(unix_nanos(), rand_u64())
}

/// Where a span stands among the spans of a trace.
#[derive(Debug, Clone)]
pub struct SpanContext {
    /// The id of the trace.
    pub trace_id: String,
    /// The id of the span.
    pub span_id: String,
    /// The id of the span above this one, where there is one.
    pub parent_id: Option<String>,
}

impl SpanContext {
    /// The context of the first span of a new trace: two fresh ids, and no
    /// parent.
    pub fn new_root() -> (r: Self)
        ensures
            is_id(r.trace_id@),
            is_id(r.span_id@),
            r.trace_id@.len() == 32,
            r.span_id@.len() == 32,
            r.parent_id is None,
    {
        SpanContext { trace_id: generate_id(), span_id: generate_id(), parent_id: None }
    }

    /// The context of a span below this one: in the same trace, with a fresh
    /// id of its own.
    pub fn child(&self) -> (r: Self)
        ensures
            r.trace_id@ == self.trace_id@,
            is_id(r.span_id@),
            r.span_id@.len() == 32,
            r.parent_id is Some,
            r.parent_id->0@ == self.span_id@,
    {
        SpanContext {
            trace_id: self.trace_id.clone(),
            span_id: generate_id(),
            parent_id: Some(self.span_id.clone()),
        }
    }
}

/// What is known of a span once it has ended.
#[derive(Debug)]
pub struct SpanRecord {
    pub trace_id: String,
    pub span_id: String,
    pub parent_id: Option<String>,
    pub name: String,
    /// How long the span took, in milliseconds, as far as that fits.
    pub duration_ms: u64,
}

/// A unit of work.
pub struct Span {
    /// The name of the span.
    pub name: String,
    /// Where the span stands in its trace.
    pub context: SpanContext,
    start: std::time::Instant,
    attributes: Vec<(String, String)>,
}

/// The attributes `v` with their strings as sequences of characters.
pub open spec fn attributes_view(v: Seq<(String, String)>) -> Seq<(Seq<char>, Seq<char>)> {
    Seq::new(v.len(), |i: int| (v[i].0@, v[i].1@))
}

/// The id of a span's parent as a sequence of characters.
pub open spec fn parent_view(parent: Option<String>) -> Option<Seq<char>> {
    match parent {
        Some(id) => Some(id@),
        None => None,
    }
}

/// What a [`Span`] holds, but for the moment at which it started.
pub struct SpanView {
    pub name: Seq<char>,
    pub trace_id: Seq<char>,
    pub span_id: Seq<char>,
    pub parent_id: Option<Seq<char>>,
    /// The attributes, in the order in which they were set.
    pub attributes: Seq<(Seq<char>, Seq<char>)>,
}

impl View for Span {
    type V = SpanView;

    closed spec fn view(&self) -> SpanView {
        SpanView {
            name: self.name@,
            trace_id: self.context.trace_id@,
            span_id: self.context.span_id@,
            parent_id: parent_view(self.context.parent_id),
            attributes: attributes_view(self.attributes@),
        }
    }
}

impl Span {
    /// The first span of a new trace, starting now, without attributes.
    pub fn new(name: &str) -> (r: Self)
        ensures
            r@.name == name@,
            r@.parent_id is None,
            is_id(r@.trace_id),
            is_id(r@.span_id),
            r@.attributes == Seq::<(Seq<char>, Seq<char>)>::empty(),
    {
        let r = Span {
            name: String::from_str(name),
            context: SpanContext::new_root(),
            start: moment(),
            attributes: Vec::new(),
        };
        assert(r@.attributes =~= Seq::<(Seq<char>, Seq<char>)>::empty());
        r
    }

    /// A span below this one, starting now, without attributes.
    pub fn child(&self, name: &str) -> (r: Self)
        ensures
            r@.name == name@,
            r@.trace_id == self@.trace_id,
            r@.parent_id == Some(self@.span_id),
            is_id(r@.span_id),
            r@.attributes == Seq::<(Seq<char>, Seq<char>)>::empty(),
    {
        let r = Span {
            name: String::from_str(name),
            context: self.context.child(),
            start: moment(),
            attributes: Vec::new(),
        };
        assert(r@.attributes =~= Seq::<(Seq<char>, Seq<char>)>::empty());
        r
    }

    /// The name of the span.
    pub fn name(&self) -> (r: &str)
        ensures
            r@ == self@.name,
    {
        self.name.as_str()
    }

    /// Where the span stands in its trace.
    pub fn context(&self) -> (r: &SpanContext)
        ensures
            r.trace_id@ == self@.trace_id,
            r.span_id@ == self@.span_id,
            parent_view(r.parent_id) == self@.parent_id,
    {
        &self.context
    }

    /// Adds the attribute `key` with the value `value`.
    pub fn set_attribute(&mut self, key: &str, value: &str)
        ensures
            final(self)@ == (SpanView {
                attributes: old(self)@.attributes.push((key@, value@)),
                ..old(self)@
            }),
    {
        self.attributes.push((String::from_str(key), String::from_str(value)));
        assert(self@.attributes =~= old(self)@.attributes.push((key@, value@)));
    }

    /// The time since the span started.
    pub fn elapsed(&self) -> std::time::Duration {
        elapsed_since(&self.start)
    }

    /// Ends the span: what is known of it, with the time it took.
    pub fn end(self) -> (r: SpanRecord)
        ensures
            r.name@ == self@.name,
            r.trace_id@ == self@.trace_id,
            r.span_id@ == self@.span_id,
            parent_view(r.parent_id) == self@.parent_id,
    {
        let duration = self.elapsed();
        let millis: u128 = milliseconds(&duration);
        let low: u128 = millis % 0x1_0000_0000_0000_0000u128;
        SpanRecord {
            trace_id: self.context.trace_id,
            span_id: self.context.span_id,
            parent_id: self.context.parent_id,
            name: self.name,
            duration_ms: low as u64,
        }
    }
}

/// Runs `f` within a span named `name`, and gives what `f` gives with what is
/// known of the span once it has ended, for the caller to log.
pub fn span_recorded<F: FnOnce() -> T, T>(name: &str, f: F) -> (r: (T, SpanRecord))
    requires
        f.requires(()),
    ensures
        f.ensures((), r.0),
        r.1.name@ == name@,
        r.1.parent_id is None,
        is_id(r.1.trace_id@),
        is_id(r.1.span_id@),
{
    let span = Span::new(name);
    let result = f();
    let record = span.end();
    (result, record)
}

/// Runs `f` within a span named `name`, and gives what `f` gives.
pub fn span<F: FnOnce() -> T, T>(name: &str, f: F) -> (r: T)
    requires
        f.requires(()),
    ensures
        f.ensures((), r),
{
    let (result, _) = span_recorded(name, f);
    result
}

/// Prepares tracing. There is nothing to prepare: it always succeeds.
pub fn init_tracing() -> (r: Result<(), String>)
    ensures
        r is Ok,
{
    Ok(())
}

} // verus!
