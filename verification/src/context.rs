//! The executable trace context.
//!
//! A [`TraceContext`] is owned by whoever traces and is handed by reference to
//! every tracing operation: there is no process-wide state. Each operation is
//! one transition of [`ContextView`], so the moment at which an entry enters
//! the store and the moment at which it leaves are visible at the call site.

use crate::model::ContextView;
use crate::span::{LinkOutcome, Span, SpanState, SpanView};
use crate::span_id::SpanId;
use vstd::prelude::*;

verus! {

/// A clock and the record of every span opened against it.
#[derive(Debug)]
pub struct TraceContext {
    now: u64,
    spans: Vec<Span>,
}

impl View for TraceContext {
    type V = ContextView;

    closed spec fn view(&self) -> ContextView {
        ContextView { now: self.now, spans: self.spans@.map_values(|span: Span| span@) }
    }
}

impl TraceContext {
    /// A context in which no time has passed and no span was opened.
    pub fn new() -> (context: TraceContext)
        ensures
            context@ == ContextView::empty(),
            context@.inv(),
    {
        let context = TraceContext { now: 0, spans: Vec::new() };
        assert(context@.spans =~= Seq::empty());
        context
    }

    /// The position of the record of `id`, if the context ever issued `id`.
    fn slot(&self, id: SpanId) -> (slot: Option<usize>)
        ensures
            slot is Some <==> self@.knows(id),
            slot matches Some(i) ==> i == id.0 - 1,
            slot matches Some(i) ==> i < self.spans@.len(),
            slot matches Some(i) ==> self.spans@[i as int]@ == self@.record(id),
    {
        let issued: usize = self.spans.len();
        if id.0 == 0 || id.0 > issued as u64 {
            None
        } else {
            Some((id.0 - 1) as usize)
        }
    }

    /// The reading of the logical clock.
    pub fn now(&self) -> (now: u64)
        ensures
            now == self@.now,
    {
        self.now
    }

    /// How many spans have been opened so far. The identifiers issued are
    /// exactly 1 up to this number.
    pub fn issued(&self) -> (issued: u64)
        ensures
            issued == self@.issued(),
    {
        self.spans.len() as u64
    }

    /// The record kept for `id`, whatever its state: for an exported span this
    /// is what the collector received. `None` exactly when `id` was never
    /// issued.
    pub fn record(&self, id: SpanId) -> (record: Option<&Span>)
        ensures
            record is Some <==> self@.knows(id),
            record matches Some(span) ==> span@ == self@.record(id),
    {
        match self.slot(id) {
            Some(i) => Some(&self.spans[i]),
            None => None,
        }
    }

    /// Looks `id` up in the store. `None` exactly when the store holds no
    /// entry for `id`: the span was exported, or `id` was never issued.
    pub fn resolve(&self, id: SpanId) -> (entry: Option<&Span>)
        ensures
            entry is Some <==> self@.resolves(id),
            entry matches Some(span) ==> span@ == self@.record(id),
    {
        match self.slot(id) {
            Some(i) => {
                let span = &self.spans[i];
                match span.state() {
                    SpanState::Exported => None,
                    _ => Some(span),
                }
            },
            None => None,
        }
    }

    /// The lifecycle state of the span `id` denotes; `None` exactly when `id`
    /// was never issued.
    pub fn state_of(&self, id: SpanId) -> (state: Option<SpanState>)
        ensures
            state == self@.state_of(id),
    {
        match self.slot(id) {
            Some(i) => Some(self.spans[i].state()),
            None => None,
        }
    }

    /// Whether `id` denotes a span that is still open.
    pub fn is_open(&self, id: SpanId) -> (open: bool)
        ensures
            open == self@.is_open(id),
    {
        match self.state_of(id) {
            Some(SpanState::Open) => true,
            _ => false,
        }
    }

    /// Whether the store still holds an entry for `id`.
    pub fn resolves(&self, id: SpanId) -> (held: bool)
        ensures
            held == self@.resolves(id),
    {
        match self.state_of(id) {
            Some(SpanState::Open) => true,
            Some(SpanState::Closed) => true,
            _ => false,
        }
    }

    /// Opens a span named `name` under `parent` at the current time and
    /// returns its identifier. The parent is recorded as given. Creation
    /// fails, leaving the context as it was, only when the identifier space is
    /// used up.
    pub fn open_span(&mut self, name: &'static str, parent: Option<SpanId>) -> (id: Option<SpanId>)
        requires
            old(self)@.inv(),
        ensures
            final(self)@.inv(),
            final(self)@ == old(self)@.opened(name@, parent),
            id == old(self)@.to_issue(),
            id matches Some(issued) ==> final(self)@.is_open(issued),
            id matches Some(issued) ==> final(self)@.record(issued) == SpanView::fresh(
                issued,
                name@,
                parent,
                old(self)@.now,
            ),
    {
        let issued: usize = self.spans.len();
        if issued as u64 == u64::MAX {
            return None;
        }
        let id = SpanId(issued as u64 + 1);
        self.spans.push(Span::open(id, name, parent, self.now));
        proof {
            assert(self@.spans =~= old(self)@.opened(name@, parent).spans);
            old(self)@.lemma_opened_inv(name@, parent);
        }
        Some(id)
    }

    /// Closes the span `id` at the current time. The record stays in the
    /// store until the span is exported. Returns whether a span was closed:
    /// only an open span can close, anything else leaves the context as it
    /// was.
    pub fn close_span(&mut self, id: SpanId) -> (done: bool)
        requires
            old(self)@.inv(),
        ensures
            final(self)@.inv(),
            final(self)@ == old(self)@.closed(id),
            done == old(self)@.is_open(id),
            done ==> final(self)@.is_closed(id) && final(self)@.record(id).end == Some(old(self)@.now),
    {
        match self.slot(id) {
            Some(i) => {
                match self.spans[i].state() {
                    SpanState::Open => {
                        let now: u64 = self.now;
                        self.spans[i].close(now);
                        proof {
                            assert(self@.spans =~= old(self)@.closed(id).spans);
                            old(self)@.lemma_closed_inv(id);
                        }
                        true
                    },
                    _ => false,
                }
            },
            None => false,
        }
    }

    /// Exports the span `id`: its record is handed to the collector and
    /// evicted from the store, so that `id` no longer resolves. Returns
    /// whether a span was exported: only a closed span can be, anything else
    /// leaves the context as it was.
    pub fn export_span(&mut self, id: SpanId) -> (done: bool)
        requires
            old(self)@.inv(),
        ensures
            final(self)@.inv(),
            final(self)@ == old(self)@.exported(id),
            done == old(self)@.is_closed(id),
            done ==> final(self)@.is_exported(id) && !final(self)@.resolves(id),
    {
        match self.slot(id) {
            Some(i) => {
                match self.spans[i].state() {
                    SpanState::Closed => {
                        self.spans[i].export();
                        proof {
                            assert(self@.spans =~= old(self)@.exported(id).spans);
                            old(self)@.lemma_exported_inv(id);
                        }
                        true
                    },
                    _ => false,
                }
            },
            None => false,
        }
    }

    /// Suspends the calling flow for `units`: the clock moves on, stopping at
    /// the largest value it can hold. A suspension touches no span.
    pub fn wait(&mut self, units: u64)
        requires
            old(self)@.inv(),
        ensures
            final(self)@.inv(),
            final(self)@ == old(self)@.waited(units),
    {
        if units <= u64::MAX - self.now {
            self.now = self.now + units;
        } else {
            self.now = u64::MAX;
        }
        proof {
            old(self)@.lemma_waited_inv(units);
        }
    }

    /// Registers that the span `current` follows from `target`.
    ///
    /// A link can only be recorded on an open span: when `current` is not
    /// open nothing is attempted and `None` is returned. Otherwise the link is
    /// recorded on `current` alone, and only if the store still holds
    /// `target`; a link that is already there is not recorded twice. A target
    /// that was exported, or an identifier that was never issued, gives
    /// [`LinkOutcome::TargetUnavailable`] and leaves the context as it was.
    pub fn follows_from(&mut self, current: SpanId, target: SpanId) -> (outcome: Option<LinkOutcome>)
        requires
            old(self)@.inv(),
        ensures
            final(self)@.inv(),
            final(self)@ == old(self)@.linked(current, target),
            outcome == old(self)@.link_attempt(current, target),
            outcome is Some <==> old(self)@.is_open(current),
            outcome != Some(LinkOutcome::Linked) ==> final(self)@ == old(self)@,
            old(self)@.is_open(current) ==> (match old(self)@.state_of(target) {
                Some(SpanState::Open) | Some(SpanState::Closed) => {
                    &&& outcome == Some(LinkOutcome::Linked)
                    &&& final(self)@.record(current).follows(target)
                    &&& current != target ==> final(self)@.record(target) == old(self)@.record(target)
                },
                Some(SpanState::Exported) | None => outcome == Some(LinkOutcome::TargetUnavailable),
            }),
    {
        let slot: usize = match self.slot(current) {
            Some(i) => i,
            None => {
                return None;
            },
        };
        match self.spans[slot].state() {
            SpanState::Open => {},
            _ => {
                return None;
            },
        }
        if !self.resolves(target) {
            return Some(LinkOutcome::TargetUnavailable);
        }
        self.spans[slot].link(target);
        proof {
            assert(self@.spans =~= old(self)@.linked(current, target).spans);
            old(self)@.lemma_linked_inv(current, target);
            old(self)@.record(current).lemma_linked_links(target);
        }
        Some(LinkOutcome::Linked)
    }
}

} // verus!
