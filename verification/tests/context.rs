use tracelink::context::TraceContext;
use tracelink::span::{LinkOutcome, SpanState};
use tracelink::span_id::SpanId;

#[test]
fn new_context_is_empty() {
    let context = TraceContext::new();
    assert_eq!(context.now(), 0);
    assert_eq!(context.issued(), 0);
    assert!(context.record(SpanId(1)).is_none());
    assert!(context.resolve(SpanId(1)).is_none());
    assert_eq!(context.state_of(SpanId(1)), None);
    assert_eq!(context.state_of(SpanId(0)), None);
    assert!(!context.is_open(SpanId(1)));
    assert!(!context.resolves(SpanId(1)));
}

#[test]
fn span_id_wraps_its_number() {
    assert_eq!(SpanId::from_u64(17), SpanId(17));
    assert_eq!(SpanId::from_u64(17).into_u64(), 17);
    assert_eq!(SpanId::from_u64(0).into_u64(), 0);
    assert_eq!(SpanId::from_u64(u64::MAX).into_u64(), u64::MAX);
    assert_ne!(SpanId::from_u64(1), SpanId::from_u64(2));
}

#[test]
fn identifiers_are_issued_from_one_upward() {
    let mut context = TraceContext::new();
    assert_eq!(context.open_span("a", None), Some(SpanId(1)));
    assert_eq!(context.open_span("b", None), Some(SpanId(2)));
    assert_eq!(context.open_span("c", None), Some(SpanId(3)));
    assert_eq!(context.issued(), 3);
    assert_eq!(context.record(SpanId(2)).unwrap().id(), SpanId(2));
    assert_eq!(context.record(SpanId(2)).unwrap().name(), "b");
    assert!(context.record(SpanId(4)).is_none());
    assert!(context.record(SpanId(0)).is_none());
}

#[test]
fn open_span_records_what_it_was_opened_with() {
    let mut context = TraceContext::new();
    context.wait(5);
    let root = context.open_span("root", None).unwrap();
    context.wait(2);
    let child = context.open_span("child", Some(root)).unwrap();

    let span = context.record(child).unwrap();
    assert_eq!(span.id(), child);
    assert_eq!(span.name(), "child");
    assert_eq!(span.parent(), Some(root));
    assert_eq!(span.start(), 7);
    assert_eq!(span.end(), None);
    assert_eq!(span.state(), SpanState::Open);
    assert!(span.links().is_empty());

    let span = context.record(root).unwrap();
    assert_eq!(span.parent(), None);
    assert_eq!(span.start(), 5);
    assert_eq!(span.state(), SpanState::Open);
}

#[test]
fn parent_is_recorded_as_given() {
    let mut context = TraceContext::new();
    // A parent reference is a lookup key like any other: it may be stale.
    let orphan = context.open_span("orphan", Some(SpanId(99))).unwrap();
    assert_eq!(context.record(orphan).unwrap().parent(), Some(SpanId(99)));
    assert_eq!(context.issued(), 1);
}

#[test]
fn close_span_sets_the_end_time() {
    let mut context = TraceContext::new();
    let id = context.open_span("work", None).unwrap();
    context.wait(3);

    assert!(context.close_span(id));

    let span = context.record(id).unwrap();
    assert_eq!(span.start(), 0);
    assert_eq!(span.end(), Some(3));
    assert_eq!(span.state(), SpanState::Closed);
    assert_eq!(context.state_of(id), Some(SpanState::Closed));
    assert!(!context.is_open(id));
    // Closed, not yet exported: still in the store.
    assert!(context.resolves(id));
    assert_eq!(context.resolve(id).unwrap().id(), id);
    assert_eq!(context.now(), 3);
}

#[test]
fn only_an_open_span_can_close() {
    let mut context = TraceContext::new();
    let id = context.open_span("work", None).unwrap();
    context.wait(1);
    assert!(context.close_span(id));
    context.wait(1);

    // Closed but not yet exported.
    assert!(!context.close_span(id));
    assert_eq!(context.record(id).unwrap().end(), Some(1));
    assert_eq!(context.state_of(id), Some(SpanState::Closed));

    // Exported.
    assert!(context.export_span(id));
    assert!(!context.close_span(id));
    assert_eq!(context.record(id).unwrap().end(), Some(1));
    assert_eq!(context.state_of(id), Some(SpanState::Exported));

    // Never issued.
    assert!(!context.close_span(SpanId(0)));
    assert!(!context.close_span(SpanId(2)));
    assert!(!context.close_span(SpanId(u64::MAX)));
    assert_eq!(context.issued(), 1);
}

#[test]
fn only_a_closed_span_can_be_exported() {
    let mut context = TraceContext::new();
    let open = context.open_span("open", None).unwrap();
    let closed = context.open_span("closed", None).unwrap();
    let gone = context.open_span("gone", None).unwrap();
    assert!(context.close_span(gone));
    assert!(context.export_span(gone));
    assert!(context.close_span(closed));

    // Still open.
    assert!(!context.export_span(open));
    assert_eq!(context.state_of(open), Some(SpanState::Open));
    assert_eq!(context.record(open).unwrap().end(), None);

    // Already exported.
    assert!(!context.export_span(gone));
    assert_eq!(context.state_of(gone), Some(SpanState::Exported));

    // Never issued.
    assert!(!context.export_span(SpanId(0)));
    assert!(!context.export_span(SpanId(4)));
    assert!(!context.export_span(SpanId(u64::MAX)));

    // Closed.
    assert!(context.export_span(closed));
    assert_eq!(context.state_of(closed), Some(SpanState::Exported));

    assert!(context.resolves(open));
    assert!(!context.resolves(closed));
    assert!(!context.resolves(gone));
    assert_eq!(context.now(), 0);
    assert_eq!(context.issued(), 3);
}

#[test]
fn export_evicts_one_span_and_no_other() {
    let mut context = TraceContext::new();
    let first = context.open_span("first", None).unwrap();
    let second = context.open_span("second", None).unwrap();
    assert!(context.close_span(first));
    assert!(context.close_span(second));

    assert!(context.export_span(second));

    assert_eq!(context.state_of(first), Some(SpanState::Closed));
    assert_eq!(context.state_of(second), Some(SpanState::Exported));
    assert!(context.resolve(first).is_some());
    assert!(context.resolve(second).is_none());
}

#[test]
fn exported_record_can_be_read_but_not_resolved() {
    let mut context = TraceContext::new();
    let id = context.open_span("work", Some(SpanId(9))).unwrap();
    context.wait(4);
    assert!(context.close_span(id));
    assert!(context.export_span(id));

    assert!(context.resolve(id).is_none());
    let span = context.record(id).unwrap();
    assert_eq!(span.id(), id);
    assert_eq!(span.name(), "work");
    assert_eq!(span.parent(), Some(SpanId(9)));
    assert_eq!(span.start(), 0);
    assert_eq!(span.end(), Some(4));
    assert_eq!(span.state(), SpanState::Exported);
}

#[test]
fn wait_advances_the_clock_and_nothing_else() {
    let mut context = TraceContext::new();
    let open = context.open_span("open", None).unwrap();
    let closed = context.open_span("closed", None).unwrap();
    assert!(context.close_span(closed));
    assert_eq!(context.follows_from(open, closed), Some(LinkOutcome::Linked));

    context.wait(10);
    assert_eq!(context.now(), 10);
    context.wait(0);
    assert_eq!(context.now(), 10);
    context.wait(32);
    assert_eq!(context.now(), 42);

    assert_eq!(context.issued(), 2);
    assert_eq!(context.state_of(open), Some(SpanState::Open));
    assert_eq!(context.state_of(closed), Some(SpanState::Closed));
    assert_eq!(context.record(closed).unwrap().end(), Some(0));
    assert_eq!(context.record(open).unwrap().links(), &vec![closed]);
    // A closed span stays in the store however long the flow waits.
    assert!(context.resolves(closed));
}

#[test]
fn clock_stops_at_its_largest_value() {
    let mut context = TraceContext::new();
    context.wait(u64::MAX - 1);
    assert_eq!(context.now(), u64::MAX - 1);
    context.wait(1);
    assert_eq!(context.now(), u64::MAX);
    context.wait(1);
    assert_eq!(context.now(), u64::MAX);
    context.wait(u64::MAX);
    assert_eq!(context.now(), u64::MAX);

    let id = context.open_span("late", None).unwrap();
    assert!(context.close_span(id));
    assert_eq!(context.record(id).unwrap().start(), u64::MAX);
    assert_eq!(context.record(id).unwrap().end(), Some(u64::MAX));
}

#[test]
fn clock_saturates_in_one_step() {
    let mut context = TraceContext::new();
    context.wait(3);
    context.wait(u64::MAX - 2);
    assert_eq!(context.now(), u64::MAX);
}

#[test]
fn link_to_open_target_is_recorded_on_the_referrer_only() {
    let mut context = TraceContext::new();
    let target = context.open_span("target", None).unwrap();
    let bystander = context.open_span("bystander", None).unwrap();
    let current = context.open_span("current", None).unwrap();

    assert_eq!(context.follows_from(current, target), Some(LinkOutcome::Linked));

    assert_eq!(context.record(current).unwrap().links(), &vec![target]);
    assert!(context.record(target).unwrap().links().is_empty());
    assert!(context.record(bystander).unwrap().links().is_empty());
    assert_eq!(context.state_of(target), Some(SpanState::Open));
    assert_eq!(context.state_of(current), Some(SpanState::Open));
    assert_eq!(context.now(), 0);
    assert_eq!(context.issued(), 3);
}

#[test]
fn link_to_closed_target_still_in_the_store_is_recorded() {
    let mut context = TraceContext::new();
    let target = context.open_span("target", None).unwrap();
    let current = context.open_span("current", None).unwrap();
    assert!(context.close_span(target));

    assert_eq!(context.follows_from(current, target), Some(LinkOutcome::Linked));

    assert_eq!(context.record(current).unwrap().links(), &vec![target]);
    assert!(context.record(target).unwrap().links().is_empty());
    assert_eq!(context.state_of(target), Some(SpanState::Closed));
}

#[test]
fn link_to_exported_target_is_unavailable() {
    let mut context = TraceContext::new();
    let target = context.open_span("target", None).unwrap();
    let current = context.open_span("current", None).unwrap();
    assert!(context.close_span(target));
    assert!(context.export_span(target));

    assert_eq!(context.follows_from(current, target), Some(LinkOutcome::TargetUnavailable));

    assert!(context.record(current).unwrap().links().is_empty());
    assert!(context.record(target).unwrap().links().is_empty());
    assert_eq!(context.state_of(current), Some(SpanState::Open));
    assert_eq!(context.state_of(target), Some(SpanState::Exported));
    assert_eq!(context.issued(), 2);
}

#[test]
fn link_to_unknown_target_is_unavailable() {
    let mut context = TraceContext::new();
    let current = context.open_span("current", None).unwrap();

    assert_eq!(context.follows_from(current, SpanId(2)), Some(LinkOutcome::TargetUnavailable));
    assert_eq!(context.follows_from(current, SpanId(0)), Some(LinkOutcome::TargetUnavailable));
    assert_eq!(context.follows_from(current, SpanId(u64::MAX)), Some(LinkOutcome::TargetUnavailable));

    assert!(context.record(current).unwrap().links().is_empty());
    assert_eq!(context.issued(), 1);
}

#[test]
fn span_that_is_not_open_records_no_link() {
    let mut context = TraceContext::new();
    let target = context.open_span("target", None).unwrap();
    let current = context.open_span("current", None).unwrap();
    assert!(context.close_span(current));

    // Closed.
    assert_eq!(context.follows_from(current, target), None);
    assert!(context.record(current).unwrap().links().is_empty());

    // Exported.
    assert!(context.export_span(current));
    assert_eq!(context.follows_from(current, target), None);
    assert_eq!(context.follows_from(current, current), None);
    assert!(context.record(current).unwrap().links().is_empty());

    // Never issued.
    assert_eq!(context.follows_from(SpanId(0), target), None);
    assert_eq!(context.follows_from(SpanId(3), target), None);
    assert_eq!(context.follows_from(SpanId(3), SpanId(3)), None);

    assert!(context.record(target).unwrap().links().is_empty());
    assert_eq!(context.state_of(target), Some(SpanState::Open));
    assert_eq!(context.issued(), 2);
}

#[test]
fn link_is_not_recorded_twice() {
    let mut context = TraceContext::new();
    let target = context.open_span("target", None).unwrap();
    let current = context.open_span("current", None).unwrap();

    assert_eq!(context.follows_from(current, target), Some(LinkOutcome::Linked));
    assert_eq!(context.follows_from(current, target), Some(LinkOutcome::Linked));

    assert_eq!(context.record(current).unwrap().links(), &vec![target]);
}

#[test]
fn links_keep_the_order_of_registration() {
    let mut context = TraceContext::new();
    let a = context.open_span("a", None).unwrap();
    let b = context.open_span("b", None).unwrap();
    let c = context.open_span("c", None).unwrap();
    let current = context.open_span("current", None).unwrap();

    assert_eq!(context.follows_from(current, c), Some(LinkOutcome::Linked));
    assert_eq!(context.follows_from(current, a), Some(LinkOutcome::Linked));
    assert_eq!(context.follows_from(current, c), Some(LinkOutcome::Linked));
    assert_eq!(context.follows_from(current, b), Some(LinkOutcome::Linked));
    assert_eq!(context.follows_from(current, SpanId(77)), Some(LinkOutcome::TargetUnavailable));

    let span = context.record(current).unwrap();
    assert_eq!(span.links(), &vec![c, a, b]);
    assert!(span.follows(a));
    assert!(span.follows(b));
    assert!(span.follows(c));
    assert!(!span.follows(current));
    assert!(!span.follows(SpanId(77)));
}

#[test]
fn span_may_follow_from_itself() {
    let mut context = TraceContext::new();
    let current = context.open_span("current", None).unwrap();

    assert_eq!(context.follows_from(current, current), Some(LinkOutcome::Linked));

    assert_eq!(context.record(current).unwrap().links(), &vec![current]);
}

#[test]
fn links_survive_close_and_export() {
    let mut context = TraceContext::new();
    let target = context.open_span("target", None).unwrap();
    let current = context.open_span("current", None).unwrap();
    assert_eq!(context.follows_from(current, target), Some(LinkOutcome::Linked));

    assert!(context.close_span(current));
    assert_eq!(context.record(current).unwrap().links(), &vec![target]);
    context.wait(1);
    assert!(context.export_span(current));
    assert_eq!(context.record(current).unwrap().links(), &vec![target]);
    assert_eq!(context.state_of(current), Some(SpanState::Exported));
    assert_eq!(context.state_of(target), Some(SpanState::Open));
}

#[test]
fn exported_span_stays_exported() {
    let mut context = TraceContext::new();
    let gone = context.open_span("gone", None).unwrap();
    assert!(context.close_span(gone));
    assert!(context.export_span(gone));
    context.wait(1);

    let other = context.open_span("other", Some(gone)).unwrap();
    assert_eq!(context.follows_from(other, gone), Some(LinkOutcome::TargetUnavailable));
    assert!(!context.close_span(gone));
    assert!(!context.export_span(gone));
    context.wait(5);
    assert!(context.close_span(other));
    assert!(context.export_span(other));
    context.wait(5);

    let span = context.record(gone).unwrap();
    assert_eq!(span.state(), SpanState::Exported);
    assert_eq!(span.name(), "gone");
    assert_eq!(span.parent(), None);
    assert_eq!(span.start(), 0);
    assert_eq!(span.end(), Some(0));
    assert!(span.links().is_empty());
    assert!(!context.resolves(gone));
    assert_eq!(context.now(), 11);
}

#[test]
fn state_of_follows_the_lifecycle() {
    let mut context = TraceContext::new();
    let id = context.open_span("work", None).unwrap();
    assert_eq!(context.state_of(id), Some(SpanState::Open));
    assert!(context.is_open(id));
    assert!(context.resolves(id));

    assert!(context.close_span(id));
    assert_eq!(context.state_of(id), Some(SpanState::Closed));
    assert!(!context.is_open(id));
    assert!(context.resolves(id));

    assert!(context.export_span(id));
    assert_eq!(context.state_of(id), Some(SpanState::Exported));
    assert!(!context.is_open(id));
    assert!(!context.resolves(id));

    assert_eq!(context.state_of(SpanId(2)), None);
}
