//! Handing a job to another system and taking its result back.
//!
//! The submitting flow traces the hand-over under a span of its own. The span
//! is closed and exported as soon as the hand-over is done, and the flow keeps
//! only its identifier. The receiving flow runs later and independently; it
//! tries to record that its own span follows from the job's span. Whether it
//! can depends on whether the store still holds the target at that moment,
//! and that is reported, never fatal.

use crate::context::TraceContext;
use crate::model::ContextView;
use crate::span::LinkOutcome;
use crate::span_id::SpanId;
use vstd::prelude::*;

verus! {

/// The name of the span under which a job is submitted.
pub const JOB_SPAN_NAME: &'static str = "Async job";

/// How long the job is taken to run elsewhere, in units of the logical clock.
pub const HANDOFF_UNITS: u64 = 1;

/// The context after a job was submitted: a root span named
/// [`JOB_SPAN_NAME`] was opened, then closed and exported at once. Nothing
/// happens when the identifier space is used up.
pub open spec fn submitted(context: ContextView) -> ContextView {
    if context.can_open() {
        context.opened(JOB_SPAN_NAME@, None).closed(context.next_id()).exported(context.next_id())
    } else {
        context
    }
}

/// The context after the result of a job was received under `current`.
pub open spec fn received(context: ContextView, current: SpanId, job_span_id: Option<SpanId>) -> ContextView {
    match job_span_id {
        Some(target) => context.linked(current, target),
        None => context,
    }
}

/// What receiving the result of a job reports: nothing when no link was
/// attempted, because no identifier was handed over or because `current` is
/// not open; otherwise what the attempt came to.
pub open spec fn reception(context: ContextView, current: SpanId, job_span_id: Option<SpanId>) -> Option<
    LinkOutcome,
> {
    match job_span_id {
        Some(target) => context.link_attempt(current, target),
        None => None,
    }
}

/// Submits a job: opens a root span for it, ends the span at once, and
/// returns the span's identifier, or `None` if no span could be created.
///
/// The span's scope ends with the submission, so the span is closed and
/// exported before the function returns: the identifier handed back no longer
/// resolves.
pub fn submit_async_job(context: &mut TraceContext) -> (job_span_id: Option<SpanId>)
    requires
        old(context)@.inv(),
    ensures
        final(context)@.inv(),
        final(context)@ == submitted(old(context)@),
        job_span_id == old(context)@.to_issue(),
        job_span_id matches Some(id) ==> final(context)@.is_exported(id),
{
    match context.open_span(JOB_SPAN_NAME, None) {
        Some(id) => {
            context.close_span(id);
            context.export_span(id);
            Some(id)
        },
        None => None,
    }
}

/// Suspends the calling flow while the job runs elsewhere, for
/// [`HANDOFF_UNITS`] of the clock. Nothing but the clock changes.
pub fn timed_handoff(context: &mut TraceContext)
    requires
        old(context)@.inv(),
    ensures
        final(context)@.inv(),
        final(context)@ == old(context)@.waited(HANDOFF_UNITS),
{
    context.wait(HANDOFF_UNITS);
}

/// Receives the result of a job under the span `current`: tries to record
/// that `current` follows from the span the job was submitted under.
///
/// With no identifier, or with a `current` that is not open, nothing is
/// attempted and the context stays as it was. Otherwise the attempt is made
/// and its outcome returned: a job span that has left the store gives
/// [`LinkOutcome::TargetUnavailable`].
pub fn receive_job_result(context: &mut TraceContext, current: SpanId, job_span_id: Option<SpanId>) -> (outcome:
    Option<LinkOutcome>)
    requires
        old(context)@.inv(),
    ensures
        final(context)@.inv(),
        final(context)@ == received(old(context)@, current, job_span_id),
        outcome == reception(old(context)@, current, job_span_id),
        outcome != Some(LinkOutcome::Linked) ==> final(context)@ == old(context)@,
{
    match job_span_id {
        Some(target) => context.follows_from(current, target),
        None => None,
    }
}

} // verus!
