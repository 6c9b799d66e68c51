//! Span identifiers.

use vstd::prelude::*;

verus! {

/// The handle a context hands out when it opens a span.
///
/// An identifier is only a lookup key: it stays a valid value after the span
/// it was issued for has closed and left the store, and holding one keeps
/// nothing alive.
#[derive(Clone, Copy, Debug, PartialEq, Eq, Hash, Structural)]
pub struct SpanId(pub u64);

impl SpanId {
    /// Wraps a raw number as an identifier.
    pub fn from_u64(raw: u64) -> (id: SpanId)
        ensures
            id == SpanId(raw),
    {
        SpanId(raw)
    }

    /// The raw number behind the identifier.
    pub fn into_u64(&self) -> (raw: u64)
        ensures
            raw == self.0,
    {
        self.0
    }
}

} // verus!
