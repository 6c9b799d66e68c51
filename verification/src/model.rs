//! The trace context as a mathematical object.
//!
//! A context is a clock together with the record of every span it has ever
//! issued, in the order of issue. Identifiers are issued from 1 upward and
//! never reused, so the record of identifier `n` stands at position `n - 1`.
//! The store is the part of that history which has not been exported: it is
//! what an identifier can still be resolved against.
//!
//! Every operation of the executable context is specified as one of the
//! transitions defined here.

use crate::span::{LinkOutcome, SpanState, SpanView};
use crate::span_id::SpanId;
use vstd::prelude::*;

verus! {

/// The mathematical content of a trace context.
#[verifier::ext_equal]
pub struct ContextView {
    /// The logical clock.
    pub now: u64,
    /// The record of every span issued so far, by identifier.
    pub spans: Seq<SpanView>,
}

impl ContextView {
    /// The context in which no time has passed and no span was opened.
    pub open spec fn empty() -> ContextView {
        ContextView { now: 0, spans: Seq::empty() }
    }

    /// How many spans have been opened so far.
    pub open spec fn issued(self) -> nat {
        self.spans.len()
    }

    /// Whether `id` was ever issued by this context.
    pub open spec fn knows(self, id: SpanId) -> bool {
        1 <= id.0 <= self.spans.len()
    }

    /// The record kept for `id`; meaningful for identifiers the context knows.
    pub open spec fn record(self, id: SpanId) -> SpanView
        recommends
            self.knows(id),
    {
        self.spans[id.0 - 1]
    }

    /// The lifecycle state of the span `id` denotes, if it was ever issued.
    pub open spec fn state_of(self, id: SpanId) -> Option<SpanState> {
        if self.knows(id) {
            Some(self.record(id).state)
        } else {
            None
        }
    }

    /// Whether `id` denotes a span that is still open.
    pub open spec fn is_open(self, id: SpanId) -> bool {
        self.state_of(id) == Some(SpanState::Open)
    }

    /// Whether `id` denotes a span that has closed and awaits export.
    pub open spec fn is_closed(self, id: SpanId) -> bool {
        self.state_of(id) == Some(SpanState::Closed)
    }

    /// Whether `id` denotes a span that was exported and evicted from the store.
    pub open spec fn is_exported(self, id: SpanId) -> bool {
        self.state_of(id) == Some(SpanState::Exported)
    }

    /// Whether the store still holds an entry for `id`: the span was issued
    /// and has not been exported.
    pub open spec fn resolves(self, id: SpanId) -> bool {
        self.is_open(id) || self.is_closed(id)
    }

    /// The store: the records an identifier can be resolved against.
    pub open spec fn store(self) -> Map<SpanId, SpanView> {
        Map::new(|id: SpanId| self.resolves(id), |id: SpanId| self.record(id))
    }

    /// The internal coherence of a context: the history fits the identifier
    /// space, each record sits under its own identifier and is coherent in
    /// itself, and no recorded time lies in the future.
    pub open spec fn inv(self) -> bool {
        &&& self.spans.len() <= u64::MAX
        &&& forall|i: int|
            0 <= i < self.spans.len() ==> {
                &&& (#[trigger] self.spans[i]).id == SpanId((i + 1) as u64)
                &&& self.spans[i].inv()
                &&& self.spans[i].start <= self.now
                &&& self.spans[i].end matches Some(e) ==> e <= self.now
            }
    }

    /// The history with the record of `id` replaced by `record`.
    pub open spec fn with_record(self, id: SpanId, record: SpanView) -> ContextView
        recommends
            self.knows(id),
    {
        ContextView { spans: self.spans.update(id.0 - 1, record), ..self }
    }

    /// Whether the identifier space has room for one more span.
    pub open spec fn can_open(self) -> bool {
        self.spans.len() < u64::MAX
    }

    /// The identifier the next span will be issued.
    pub open spec fn next_id(self) -> SpanId
        recommends
            self.can_open(),
    {
        SpanId((self.spans.len() + 1) as u64)
    }

    /// What opening a span returns: the next identifier, or nothing when the
    /// identifier space is used up.
    pub open spec fn to_issue(self) -> Option<SpanId> {
        if self.can_open() {
            Some(self.next_id())
        } else {
            None
        }
    }

    /// The context after a span named `name` was opened under `parent`.
    /// When the identifier space is used up no span is created.
    pub open spec fn opened(self, name: Seq<char>, parent: Option<SpanId>) -> ContextView {
        if self.can_open() {
            ContextView {
                spans: self.spans.push(SpanView::fresh(self.next_id(), name, parent, self.now)),
                ..self
            }
        } else {
            self
        }
    }

    /// The context after the span `id` closed. Only an open span can close.
    pub open spec fn closed(self, id: SpanId) -> ContextView {
        if self.is_open(id) {
            self.with_record(id, self.record(id).closed(self.now))
        } else {
            self
        }
    }

    /// The context after the span `id` was exported: its record is handed to
    /// the collector and thereby leaves the store. Only a closed span can be
    /// exported.
    pub open spec fn exported(self, id: SpanId) -> ContextView {
        if self.is_closed(id) {
            self.with_record(id, self.record(id).exported())
        } else {
            self
        }
    }

    /// The clock reading `units` later; the clock stops at the largest value
    /// it can hold.
    pub open spec fn later(self, units: u64) -> u64 {
        if self.now + units <= u64::MAX {
            (self.now + units) as u64
        } else {
            u64::MAX
        }
    }

    /// The context after the calling flow was suspended for `units`: the clock
    /// has moved on, and nothing else has changed.
    pub open spec fn waited(self, units: u64) -> ContextView {
        ContextView { now: self.later(units), ..self }
    }

    /// What registering a link to `target` comes to: it succeeds exactly when
    /// the store still holds `target`.
    pub open spec fn link_outcome(self, target: SpanId) -> LinkOutcome {
        if self.resolves(target) {
            LinkOutcome::Linked
        } else {
            LinkOutcome::TargetUnavailable
        }
    }

    /// What an attempt of `current` to register that it follows from `target`
    /// reports: nothing when `current` is not open, since a link can only be
    /// recorded on an open span and none is attempted; otherwise what the
    /// attempt came to.
    pub open spec fn link_attempt(self, current: SpanId, target: SpanId) -> Option<LinkOutcome> {
        if self.is_open(current) {
            Some(self.link_outcome(target))
        } else {
            None
        }
    }

    /// The context after `current` tried to register that it follows from
    /// `target`. The link is recorded on `current` alone, and only while
    /// `current` is open and the store still holds `target`.
    pub open spec fn linked(self, current: SpanId, target: SpanId) -> ContextView {
        if self.is_open(current) && self.resolves(target) {
            self.with_record(current, self.record(current).linked(target))
        } else {
            self
        }
    }

    /// Opening a span keeps the context coherent.
    pub proof fn lemma_opened_inv(self, name: Seq<char>, parent: Option<SpanId>)
        requires
            self.inv(),
        ensures
            self.opened(name, parent).inv(),
    {
    }

    /// Closing a span keeps the context coherent.
    pub proof fn lemma_closed_inv(self, id: SpanId)
        requires
            self.inv(),
        ensures
            self.closed(id).inv(),
    {
    }

    /// Exporting a span keeps the context coherent.
    pub proof fn lemma_exported_inv(self, id: SpanId)
        requires
            self.inv(),
        ensures
            self.exported(id).inv(),
    {
    }

    /// A suspension keeps the context coherent.
    pub proof fn lemma_waited_inv(self, units: u64)
        requires
            self.inv(),
        ensures
            self.waited(units).inv(),
    {
    }

    /// Registering a link keeps the context coherent.
    pub proof fn lemma_linked_inv(self, current: SpanId, target: SpanId)
        requires
            self.inv(),
        ensures
            self.linked(current, target).inv(),
    {
        if self.is_open(current) && self.resolves(target) {
            let before = self.record(current);
            if !before.follows(target) {
                assert(before.links.push(target).no_duplicates());
            }
        }
    }
}

} // verus!
