//! Span records and their lifecycle.
//!
//! A span is a named, timed unit of traced work. Its record moves one way
//! through three states, open, closed, exported, and carries the set of spans
//! it follows from. [`SpanView`] is the mathematical record; [`Span`] is the
//! value a context stores.

use crate::span_id::SpanId;
use vstd::prelude::*;

verus! {

/// Where a span's record stands in its lifecycle.
#[derive(Clone, Copy, Debug, PartialEq, Eq, Hash, Structural)]
pub enum SpanState {
    /// The unit of work is running; links may be recorded on the span.
    Open,
    /// The unit of work has ended; the record waits in the store for export.
    Closed,
    /// The record has been handed to the collector and has left the store.
    Exported,
}

/// What an attempt to register a follows-from link came to.
#[derive(Clone, Copy, Debug, PartialEq, Eq, Hash, Structural)]
pub enum LinkOutcome {
    /// The target was found in the store and the link is on the referencing span.
    Linked,
    /// The store holds no entry for the target; nothing was recorded.
    TargetUnavailable,
}

/// The mathematical content of a span record.
#[verifier::ext_equal]
pub struct SpanView {
    pub id: SpanId,
    pub name: Seq<char>,
    pub parent: Option<SpanId>,
    pub start: u64,
    pub end: Option<u64>,
    pub state: SpanState,
    pub links: Seq<SpanId>,
}

impl SpanView {
    /// A record is coherent when it has an end time exactly when it is no
    /// longer open, does not end before it starts, and lists each span it
    /// follows from once.
    pub open spec fn inv(self) -> bool {
        &&& self.state == SpanState::Open <==> self.end is None
        &&& self.end matches Some(e) ==> self.start <= e
        &&& self.links.no_duplicates()
    }

    /// The record of a span opened at time `now`.
    pub open spec fn fresh(id: SpanId, name: Seq<char>, parent: Option<SpanId>, now: u64) -> SpanView {
        SpanView {
            id,
            name,
            parent,
            start: now,
            end: None,
            state: SpanState::Open,
            links: Seq::empty(),
        }
    }

    /// The record after its unit of work ended at time `now`.
    pub open spec fn closed(self, now: u64) -> SpanView {
        SpanView { end: Some(now), state: SpanState::Closed, ..self }
    }

    /// The record after it was handed to the collector.
    pub open spec fn exported(self) -> SpanView {
        SpanView { state: SpanState::Exported, ..self }
    }

    /// Whether the span already follows from `target`.
    pub open spec fn follows(self, target: SpanId) -> bool {
        self.links.contains(target)
    }

    /// The record after a link to `target` was registered: the link set gains
    /// `target` unless it is there already.
    pub open spec fn linked(self, target: SpanId) -> SpanView {
        if self.follows(target) {
            self
        } else {
            SpanView { links: self.links.push(target), ..self }
        }
    }

    /// Registering a link puts `target` into the link set, keeps every link
    /// that was there, and adds nothing else.
    pub proof fn lemma_linked_links(self, target: SpanId)
        ensures
            self.linked(target).follows(target),
            forall|other: SpanId|
                self.linked(target).follows(other) <==> other == target || self.follows(other),
    {
        let after = self.linked(target);
        if !self.follows(target) {
            assert(after.links[self.links.len() as int] == target);
            assert forall|other: SpanId| after.follows(other) implies other == target || self.follows(
                other,
            ) by {
                let k: int = choose|k: int| 0 <= k < after.links.len() && after.links[k] == other;
                if k < self.links.len() {
                    assert(self.links[k] == other);
                }
            }
            assert forall|other: SpanId| self.follows(other) implies after.follows(other) by {
                let k: int = choose|k: int| 0 <= k < self.links.len() && self.links[k] == other;
                assert(after.links[k] == other);
            }
        }
    }
}

/// A span record as a context stores it.
#[derive(Debug)]
pub struct Span {
    id: SpanId,
    name: &'static str,
    parent: Option<SpanId>,
    start: u64,
    end: Option<u64>,
    state: SpanState,
    links: Vec<SpanId>,
}

impl View for Span {
    type V = SpanView;

    closed spec fn view(&self) -> SpanView {
        SpanView {
            id: self.id,
            name: self.name@,
            parent: self.parent,
            start: self.start,
            end: self.end,
            state: self.state,
            links: self.links@,
        }
    }
}

impl Span {
    /// Opens a span at time `now`.
    pub(crate) fn open(id: SpanId, name: &'static str, parent: Option<SpanId>, now: u64) -> (span: Span)
        ensures
            span@ == SpanView::fresh(id, name@, parent, now),
    {
        Span { id, name, parent, start: now, end: None, state: SpanState::Open, links: Vec::new() }
    }

    /// Ends the span's unit of work at time `now`.
    pub(crate) fn close(&mut self, now: u64)
        ensures
            final(self)@ == old(self)@.closed(now),
    {
        self.end = Some(now);
        self.state = SpanState::Closed;
    }

    /// Marks the record as handed to the collector.
    pub(crate) fn export(&mut self)
        ensures
            final(self)@ == old(self)@.exported(),
    {
        self.state = SpanState::Exported;
    }

    /// Registers a link to `target` on this span.
    pub(crate) fn link(&mut self, target: SpanId)
        ensures
            final(self)@ == old(self)@.linked(target),
    {
        if !self.follows(target) {
            self.links.push(target);
        }
    }

    /// The identifier the span was issued.
    pub fn id(&self) -> (id: SpanId)
        ensures
            id == self@.id,
    {
        self.id
    }

    /// The span's name.
    pub fn name(&self) -> (name: &'static str)
        ensures
            name@ == self@.name,
    {
        self.name
    }

    /// The parent the span was opened under, if any.
    pub fn parent(&self) -> (parent: Option<SpanId>)
        ensures
            parent == self@.parent,
    {
        self.parent
    }

    /// The time at which the span was opened.
    pub fn start(&self) -> (start: u64)
        ensures
            start == self@.start,
    {
        self.start
    }

    /// The time at which the span closed, once it has.
    pub fn end(&self) -> (end: Option<u64>)
        ensures
            end == self@.end,
    {
        self.end
    }

    /// Where the record stands in its lifecycle.
    pub fn state(&self) -> (state: SpanState)
        ensures
            state == self@.state,
    {
        self.state
    }

    /// The spans this one follows from, in the order the links were registered.
    pub fn links(&self) -> (links: &Vec<SpanId>)
        ensures
            links@ == self@.links,
    {
        &self.links
    }

    /// Whether this span follows from `target`.
    pub fn follows(&self, target: SpanId) -> (found: bool)
        ensures
            found == self@.follows(target),
    {
        let mut i: usize = 0;
        while i < self.links.len()
            invariant
                i <= self.links@.len(),
                forall|j: int| 0 <= j < i ==> self.links@[j] != target,
            decreases self.links@.len() - i,
        {
            if self.links[i] == target {
                return true;
            }
            i += 1;
        }
        false
    }
}

} // verus!
