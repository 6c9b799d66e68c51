//! What holds of every trace context.
//!
//! Each law is stated over [`ContextView`], the model in which the operations
//! of [`crate::context::TraceContext`] are specified, so it holds of every
//! sequence of calls on an executable context.

use crate::job::{received, reception, submitted, JOB_SPAN_NAME};
use crate::model::ContextView;
use crate::span::LinkOutcome;
use crate::span_id::SpanId;
use vstd::prelude::*;

verus! {

/// Whether `later` continues the history of `earlier`: no identifier is
/// forgotten or re-issued, time does not run backwards, what a record was
/// opened with never changes, a span that is no longer open does not reopen
/// and keeps its end time and its links, and a span that was exported stays
/// exported with its record frozen.
pub open spec fn continues(earlier: ContextView, later: ContextView) -> bool {
    &&& earlier.now <= later.now
    &&& earlier.issued() <= later.issued()
    &&& forall|id: SpanId| #[trigger]
        earlier.knows(id) ==> {
            &&& later.knows(id)
            &&& later.record(id).id == earlier.record(id).id
            &&& later.record(id).name == earlier.record(id).name
            &&& later.record(id).parent == earlier.record(id).parent
            &&& later.record(id).start == earlier.record(id).start
            &&& !earlier.is_open(id) ==> {
                &&& !later.is_open(id)
                &&& later.record(id).end == earlier.record(id).end
                &&& later.record(id).links == earlier.record(id).links
            }
            &&& earlier.is_exported(id) ==> later.record(id) == earlier.record(id)
        }
}

/// A link to a span that is still open succeeds, and it is recorded on the
/// referencing span only: the record of the target, its link set included, is
/// what it was before.
pub proof fn law_open_target_is_linked(context: ContextView, current: SpanId, target: SpanId)
    requires
        context.inv(),
        context.is_open(current),
        context.is_open(target),
        current != target,
    ensures
        context.link_attempt(current, target) == Some(LinkOutcome::Linked),
        reception(context, current, Some(target)) == Some(LinkOutcome::Linked),
        context.linked(current, target).record(current).follows(target),
        context.linked(current, target).record(target) == context.record(target),
        context.linked(current, target).record(target).links == context.record(target).links,
{
    context.record(current).lemma_linked_links(target);
}

/// A span may follow from itself when it is open: the link succeeds and is
/// recorded, as any other, on the referencing span.
pub proof fn law_open_span_links_to_itself(context: ContextView, current: SpanId)
    requires
        context.inv(),
        context.is_open(current),
    ensures
        context.link_attempt(current, current) == Some(LinkOutcome::Linked),
        context.linked(current, current).record(current).follows(current),
{
    context.record(current).lemma_linked_links(current);
}

/// A span that is not open records no link: nothing is attempted, whatever
/// the target.
pub proof fn law_referrer_that_is_not_open_attempts_nothing(
    context: ContextView,
    current: SpanId,
    target: SpanId,
)
    requires
        !context.is_open(current),
    ensures
        context.link_attempt(current, target) is None,
        context.linked(current, target) == context,
        reception(context, current, Some(target)) is None,
{
}

/// A link is only ever recorded while the referencing span is open and the
/// store still holds the span it refers to.
pub proof fn law_link_needs_open_referrer_and_held_target(
    context: ContextView,
    current: SpanId,
    target: SpanId,
)
    requires
        context.inv(),
        context.linked(current, target) != context,
    ensures
        context.is_open(current),
        context.resolves(target),
        context.store().dom().contains(target),
        !context.record(current).follows(target),
        context.linked(current, target).record(current).links == context.record(current).links.push(
            target,
        ),
{
    if context.record(current).follows(target) {
        assert(context.linked(current, target).spans =~= context.spans);
    }
}

/// Registering a link changes nothing but the link set of the referencing
/// span, which keeps every link it had.
pub proof fn law_link_touches_referrer_only(context: ContextView, current: SpanId, target: SpanId)
    requires
        context.inv(),
    ensures
        context.linked(current, target).now == context.now,
        context.linked(current, target).issued() == context.issued(),
        forall|other: SpanId|
            other != current && #[trigger] context.knows(other) ==> context.linked(current, target).record(
                other,
            ) == context.record(other),
        context.linked(current, target).record(current).id == context.record(current).id,
        context.linked(current, target).record(current).name == context.record(current).name,
        context.linked(current, target).record(current).parent == context.record(current).parent,
        context.linked(current, target).record(current).start == context.record(current).start,
        context.linked(current, target).record(current).end == context.record(current).end,
        context.linked(current, target).record(current).state == context.record(current).state,
        forall|other: SpanId|
            context.record(current).follows(other) ==> #[trigger] context.linked(current, target).record(
                current,
            ).follows(other),
{
    if context.is_open(current) && context.resolves(target) {
        context.record(current).lemma_linked_links(target);
    }
}

/// A link to a span that has been exported, and so evicted from the store, is
/// reported as [`LinkOutcome::TargetUnavailable`] and leaves the context as it
/// was.
pub proof fn law_exported_target_is_unavailable(context: ContextView, current: SpanId, target: SpanId)
    requires
        context.inv(),
        context.is_exported(target),
    ensures
        !context.store().dom().contains(target),
        context.link_outcome(target) == LinkOutcome::TargetUnavailable,
        context.link_attempt(current, target) != Some(LinkOutcome::Linked),
        context.is_open(current) ==> context.link_attempt(current, target) == Some(
            LinkOutcome::TargetUnavailable,
        ),
        context.is_open(current) ==> reception(context, current, Some(target)) == Some(
            LinkOutcome::TargetUnavailable,
        ),
        context.linked(current, target) == context,
{
}

/// A link to an identifier the context never issued is reported as
/// [`LinkOutcome::TargetUnavailable`] and leaves the context as it was.
pub proof fn law_unknown_target_is_unavailable(context: ContextView, current: SpanId, target: SpanId)
    requires
        context.inv(),
        !context.knows(target),
    ensures
        !context.store().dom().contains(target),
        context.link_outcome(target) == LinkOutcome::TargetUnavailable,
        context.linked(current, target) == context,
{
}

/// The store holds exactly the spans that were issued and not yet exported,
/// each under its own identifier.
pub proof fn law_store_holds_unexported_spans(context: ContextView, id: SpanId)
    requires
        context.inv(),
    ensures
        context.store().dom().contains(id) <==> context.knows(id) && !context.is_exported(id),
        context.store().dom().contains(id) ==> context.store()[id] == context.record(id)
            && context.store()[id].id == id,
{
}

/// Receiving with no identifier registers nothing.
pub proof fn law_absent_identifier_registers_nothing(context: ContextView, current: SpanId)
    ensures
        reception(context, current, None) is None,
        received(context, current, None) == context,
{
}

/// A span that has closed can be followed from for as long as it has not
/// been exported.
pub proof fn law_closed_target_is_linked(context: ContextView, current: SpanId, target: SpanId)
    requires
        context.inv(),
        context.is_open(current),
        context.is_closed(target),
    ensures
        context.store().dom().contains(target),
        context.link_attempt(current, target) == Some(LinkOutcome::Linked),
        context.linked(current, target).record(current).follows(target),
        context.linked(current, target).record(target) == context.record(target),
{
    context.record(current).lemma_linked_links(target);
}

/// A submitted job cannot be followed from, however long the flow is
/// suspended in between: the job's span was exported when the submission
/// ended, so every later attempt reports [`LinkOutcome::TargetUnavailable`]
/// and records nothing.
pub proof fn law_submitted_job_is_unavailable(context: ContextView, units: u64, current: SpanId)
    requires
        context.inv(),
        context.can_open(),
    ensures
        context.to_issue() == Some(context.next_id()),
        submitted(context).record(context.next_id()).parent is None,
        submitted(context).is_exported(context.next_id()),
        submitted(context).waited(units).is_exported(context.next_id()),
        submitted(context).waited(units).link_outcome(context.next_id())
            == LinkOutcome::TargetUnavailable,
        submitted(context).waited(units).linked(current, context.next_id()) == submitted(context).waited(
            units,
        ),
{
}

/// A suspension moves the clock and nothing else: no span is opened, closed,
/// exported or linked while the flow waits.
pub proof fn law_waiting_touches_no_span(context: ContextView, units: u64)
    ensures
        context.waited(units).spans == context.spans,
        context.waited(units).store() == context.store(),
        forall|id: SpanId| context.waited(units).state_of(id) == context.state_of(id),
        forall|target: SpanId| context.waited(units).link_outcome(target) == context.link_outcome(target),
{
    assert(context.waited(units).store() =~= context.store());
}

/// Opening a span continues the history.
pub proof fn law_opening_continues(context: ContextView, name: Seq<char>, parent: Option<SpanId>)
    requires
        context.inv(),
    ensures
        continues(context, context.opened(name, parent)),
{
}

/// Closing a span continues the history.
pub proof fn law_closing_continues(context: ContextView, id: SpanId)
    requires
        context.inv(),
    ensures
        continues(context, context.closed(id)),
{
}

/// Exporting a span continues the history.
pub proof fn law_exporting_continues(context: ContextView, id: SpanId)
    requires
        context.inv(),
    ensures
        continues(context, context.exported(id)),
{
}

/// A suspension continues the history.
pub proof fn law_waiting_continues(context: ContextView, units: u64)
    requires
        context.inv(),
    ensures
        continues(context, context.waited(units)),
{
}

/// Registering a link continues the history: in particular a link is only
/// ever recorded on a span that is open.
pub proof fn law_linking_continues(context: ContextView, current: SpanId, target: SpanId)
    requires
        context.inv(),
    ensures
        continues(context, context.linked(current, target)),
{
}

/// Histories compose.
pub proof fn law_continues_is_transitive(first: ContextView, second: ContextView, third: ContextView)
    requires
        continues(first, second),
        continues(second, third),
    ensures
        continues(first, third),
{
    assert forall|id: SpanId| #[trigger] first.knows(id) implies {
        &&& third.knows(id)
        &&& third.record(id).id == first.record(id).id
        &&& third.record(id).name == first.record(id).name
        &&& third.record(id).parent == first.record(id).parent
        &&& third.record(id).start == first.record(id).start
        &&& !first.is_open(id) ==> {
            &&& !third.is_open(id)
            &&& third.record(id).end == first.record(id).end
            &&& third.record(id).links == first.record(id).links
        }
        &&& first.is_exported(id) ==> third.record(id) == first.record(id)
    } by {
        assert(second.knows(id));
    }
}

} // verus!
