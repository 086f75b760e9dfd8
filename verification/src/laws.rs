//! Laws of the correlation engine, proved over `spec_process`.

use crate::engine::{
    spec_initial, spec_is_context_creating, spec_on_connected, spec_process, SpanContextView,
};
use crate::event::EventView;
use crate::policy::{spec_event_type, spec_preview, PREVIEW_LIMIT};
use crate::span::SpanView;
use crate::text::dec_str;
use vstd::prelude::*;

verus! {

/// The state after consuming a whole sequence of events, each with the
/// span identifier drawn for it.
pub open spec fn spec_run(ctx: SpanContextView, evs: Seq<(EventView, Seq<char>)>) -> (r:
    SpanContextView)
    decreases evs.len(),
{
    if evs.len() == 0 {
        ctx
    } else {
        spec_run(spec_process(ctx, evs.first().0, evs.first().1), evs.drop_first())
    }
}

/// The pairing key an event would open, when it is a `*_START` marker.
pub open spec fn spec_start_key(e: EventView) -> Option<Seq<char>> {
    let ev = spec_event_type(e);
    if ev is Some && "_START"@.is_suffix_of(ev->0) {
        Some(ev->0.take(ev->0.len() - "_START"@.len()))
    } else {
        None
    }
}

/// The pairing key an event would close, when the engine reads it as a
/// `*_END` marker (a name ending in both suffixes reads as a start).
pub open spec fn spec_end_key(e: EventView) -> Option<Seq<char>> {
    let ev = spec_event_type(e);
    if ev is Some && !"_START"@.is_suffix_of(ev->0) && "_END"@.is_suffix_of(ev->0) {
        Some(ev->0.take(ev->0.len() - "_END"@.len()))
    } else {
        None
    }
}

/// An end marker with no pending start under its key changes nothing:
/// no span is emitted, and neither the open stack nor anything else moves.
pub proof fn lemma_unmatched_end(ctx: SpanContextView, e: EventView, sid: Seq<char>)
    requires
        spec_end_key(e) is Some,
        !ctx.active_spans.contains_key(spec_end_key(e)->0),
    ensures
        spec_process(ctx, e, sid) == ctx,
{
}

/// One step leaves a pending entry in place, with everything but its tag
/// set untouched, as long as the event neither starts nor ends that key.
pub proof fn lemma_step_preserves_pending(
    ctx: SpanContextView,
    e: EventView,
    sid: Seq<char>,
    k: Seq<char>,
)
    requires
        ctx.active_spans.contains_key(k),
        spec_start_key(e) != Some(k),
        spec_end_key(e) != Some(k),
    ensures
        spec_process(ctx, e, sid).active_spans.contains_key(k),
        spec_process(ctx, e, sid).active_spans[k].span_id == ctx.active_spans[k].span_id,
        spec_process(ctx, e, sid).active_spans[k].parent_id == ctx.active_spans[k].parent_id,
        spec_process(ctx, e, sid).active_spans[k].start_micros == ctx.active_spans[k].start_micros,
        spec_process(ctx, e, sid).active_spans[k].name == ctx.active_spans[k].name,
        spec_process(ctx, e, sid).active_spans[k].kind == ctx.active_spans[k].kind,
{
}

/// A whole run leaves a pending entry in place, with everything but its
/// tag set untouched, as long as no event starts or ends that key.
pub proof fn lemma_run_preserves_pending(
    ctx: SpanContextView,
    evs: Seq<(EventView, Seq<char>)>,
    k: Seq<char>,
)
    requires
        ctx.active_spans.contains_key(k),
        forall|i: int|
            0 <= i < evs.len() ==> spec_start_key(#[trigger] evs[i].0) != Some(k) && spec_end_key(
                evs[i].0,
            ) != Some(k),
    ensures
        spec_run(ctx, evs).active_spans.contains_key(k),
        spec_run(ctx, evs).active_spans[k].span_id == ctx.active_spans[k].span_id,
        spec_run(ctx, evs).active_spans[k].parent_id == ctx.active_spans[k].parent_id,
        spec_run(ctx, evs).active_spans[k].start_micros == ctx.active_spans[k].start_micros,
        spec_run(ctx, evs).active_spans[k].name == ctx.active_spans[k].name,
        spec_run(ctx, evs).active_spans[k].kind == ctx.active_spans[k].kind,
    decreases evs.len(),
{
    if evs.len() > 0 {
        assert(spec_start_key(evs[0].0) != Some(k) && spec_end_key(evs[0].0) != Some(k));
        lemma_step_preserves_pending(ctx, evs.first().0, evs.first().1, k);
        lemma_run_preserves_pending(
            spec_process(ctx, evs.first().0, evs.first().1),
            evs.drop_first(),
            k,
        );
        assert(forall|i: int|
            0 <= i < evs.drop_first().len() ==> spec_start_key(#[trigger] evs.drop_first()[i].0)
                != Some(k) && spec_end_key(evs.drop_first()[i].0) != Some(k)) by {
            assert(forall|i: int|
                0 <= i < evs.drop_first().len() ==> #[trigger] evs.drop_first()[i] == evs[i + 1]);
        }
    }
}

/// A start marker, then any events that leave its key alone, then the
/// matching end marker: the start emits nothing, and the end emits
/// exactly one span, carrying the start's identifier, the start's
/// timestamp, and the difference of the two timestamps as its duration.
pub proof fn lemma_start_end_pairing(
    ctx: SpanContextView,
    e_start: EventView,
    sid: Seq<char>,
    mids: Seq<(EventView, Seq<char>)>,
    e_end: EventView,
    sid2: Seq<char>,
    k: Seq<char>,
)
    requires
        spec_start_key(e_start) == Some(k),
        spec_end_key(e_end) == Some(k),
        forall|i: int|
            0 <= i < mids.len() ==> spec_start_key(#[trigger] mids[i].0) != Some(k)
                && spec_end_key(mids[i].0) != Some(k),
    ensures
        ({
            let c1 = spec_process(ctx, e_start, sid);
            let c2 = spec_run(c1, mids);
            let c3 = spec_process(c2, e_end, sid2);
            &&& c1.completed_spans == ctx.completed_spans
            &&& c3.completed_spans.len() == c2.completed_spans.len() + 1
            &&& c3.completed_spans.last().id == sid
            &&& c3.completed_spans.last().timestamp == e_start.timestamp_micros
            &&& c3.completed_spans.last().duration == Some(
                vstd::wrapping::u64_specs::wrapping_sub(
                    e_end.timestamp_micros,
                    e_start.timestamp_micros,
                ),
            )
            &&& c3.completed_spans.last().name == crate::policy::spec_span_name(e_start)
            &&& c3.completed_spans.last().kind == crate::policy::spec_span_kind(
                spec_event_type(e_start)->0,
            )
            &&& e_end.timestamp_micros >= e_start.timestamp_micros
                ==> c3.completed_spans.last().duration->0 == e_end.timestamp_micros
                - e_start.timestamp_micros
        }),
{
    let c1 = spec_process(ctx, e_start, sid);
    assert(c1.active_spans.contains_key(k));
    assert(c1.active_spans[k].span_id == sid);
    assert(c1.active_spans[k].start_micros == e_start.timestamp_micros);
    lemma_run_preserves_pending(c1, mids, k);
}

/// Two nested context-creating pairs: the inner span's parent is the
/// outer span's identifier.
pub proof fn lemma_nested_pairs(
    ctx: SpanContextView,
    e1: EventView,
    sid1: Seq<char>,
    e2: EventView,
    sid2: Seq<char>,
    e3: EventView,
    sid3: Seq<char>,
    e4: EventView,
    sid4: Seq<char>,
    ko: Seq<char>,
    ki: Seq<char>,
)
    requires
        spec_start_key(e1) == Some(ko),
        spec_is_context_creating(ko),
        spec_start_key(e2) == Some(ki),
        spec_is_context_creating(ki),
        ki != ko,
        spec_end_key(e3) == Some(ki),
        spec_end_key(e4) == Some(ko),
    ensures
        ({
            let c1 = spec_process(ctx, e1, sid1);
            let c2 = spec_process(c1, e2, sid2);
            let c3 = spec_process(c2, e3, sid3);
            let c4 = spec_process(c3, e4, sid4);
            &&& c3.completed_spans.len() == c2.completed_spans.len() + 1
            &&& c3.completed_spans.last().parent_id == Some(sid1)
            &&& c3.completed_spans.last().id == sid2
            &&& c4.completed_spans.len() == c3.completed_spans.len() + 1
            &&& c4.completed_spans.last().id == sid1
        }),
{
    let c1 = spec_process(ctx, e1, sid1);
    assert(c1.current_span_stack == ctx.current_span_stack.push(sid1));
    let c2 = spec_process(c1, e2, sid2);
    assert(c2.active_spans[ki].parent_id == Some(sid1));
    assert(c2.active_spans.contains_key(ki));
    let c3 = spec_process(c2, e3, sid3);
    assert(c3.active_spans.contains_key(ko));
    assert(c3.active_spans[ko].span_id == sid1);
}

/// A connected marker between a matching start and end emits no span of
/// its own and moves neither the stack nor the span count, but its
/// timestamp tag is on the span the end eventually emits.
pub proof fn lemma_connected_marker(
    ctx: SpanContextView,
    e_start: EventView,
    sid: Seq<char>,
    e_conn: EventView,
    sid2: Seq<char>,
    e_end: EventView,
    sid3: Seq<char>,
)
    requires
        spec_start_key(e_start) == Some("WAITING_LLM_STREAM"@),
        spec_event_type(e_conn) == Some("WAITING_LLM_STREAM_CONNECTED"@),
        spec_end_key(e_end) == Some("WAITING_LLM_STREAM"@),
    ensures
        ({
            let c1 = spec_process(ctx, e_start, sid);
            let c2 = spec_process(c1, e_conn, sid2);
            let c3 = spec_process(c2, e_end, sid3);
            &&& c2.completed_spans == c1.completed_spans
            &&& c2.current_span_stack == c1.current_span_stack
            &&& c3.completed_spans.len() == c2.completed_spans.len() + 1
            &&& c3.completed_spans.last().tags.contains_key("stream.connected_at"@)
            &&& c3.completed_spans.last().tags["stream.connected_at"@] == dec_str(
                e_conn.timestamp_micros as int,
            )
        }),
{
    let ev = spec_event_type(e_conn)->0;
    assert(!"_START"@.is_suffix_of(ev)) by {
        reveal_strlit("WAITING_LLM_STREAM_CONNECTED");
        reveal_strlit("_START");
        assert(ev[22] == 'N');
        assert("_START"@[0] == '_');
        assert(ev.subrange(22, 28)[0] == ev[22]);
    }
    assert(!"_END"@.is_suffix_of(ev)) by {
        reveal_strlit("WAITING_LLM_STREAM_CONNECTED");
        reveal_strlit("_END");
        assert(ev[24] == 'C');
        assert("_END"@[0] == '_');
        assert(ev.subrange(24, 28)[0] == ev[24]);
    }
    let c1 = spec_process(ctx, e_start, sid);
    assert(c1.active_spans.contains_key("WAITING_LLM_STREAM"@));
    let c2 = spec_process(c1, e_conn, sid2);
    assert(c2 == spec_on_connected(c1, e_conn));
    assert(c2.active_spans.contains_key("WAITING_LLM_STREAM"@));
    assert(c2.active_spans["WAITING_LLM_STREAM"@].tags == c1.active_spans[
        "WAITING_LLM_STREAM"@
    ].tags.insert("stream.connected_at"@, dec_str(e_conn.timestamp_micros as int)));
}

/// Every span a step emits carries the owning context's trace identifier,
/// and the step never changes that identifier.
pub open spec fn spans_carry_trace(ctx: SpanContextView) -> bool {
    forall|i: int|
        0 <= i < ctx.completed_spans.len() ==> (#[trigger] ctx.completed_spans[i]).trace_id
            == ctx.trace_id
}

pub proof fn lemma_trace_ownership(ctx: SpanContextView, e: EventView, sid: Seq<char>)
    requires
        spans_carry_trace(ctx),
    ensures
        spec_process(ctx, e, sid).trace_id == ctx.trace_id,
        spans_carry_trace(spec_process(ctx, e, sid)),
{
}

/// Request previews: a serialization within the limit is kept as it is; a
/// longer one is cut to exactly the limit and the ellipsis marker.
pub proof fn lemma_preview_truncation(s: Seq<char>)
    ensures
        s.len() <= PREVIEW_LIMIT ==> spec_preview(s) == s,
        s.len() > PREVIEW_LIMIT ==> spec_preview(s).len() == PREVIEW_LIMIT + 3
            && spec_preview(s).take(PREVIEW_LIMIT as int) == s.take(PREVIEW_LIMIT as int)
            && spec_preview(s).skip(PREVIEW_LIMIT as int) == "..."@,
{
    reveal_strlit("...");
    if s.len() > PREVIEW_LIMIT {
        assert(spec_preview(s).take(PREVIEW_LIMIT as int) =~= s.take(PREVIEW_LIMIT as int));
        assert(spec_preview(s).skip(PREVIEW_LIMIT as int) =~= "..."@);
    }
}

/// How two runs relate when they differ only in their trace identifier:
/// same stack, same pending spans, and finished spans equal except that
/// each carries its own run's trace identifier.
pub open spec fn same_modulo_trace(c1: SpanContextView, c2: SpanContextView) -> bool {
    &&& c1.current_span_stack == c2.current_span_stack
    &&& c1.active_spans == c2.active_spans
    &&& c1.completed_spans.len() == c2.completed_spans.len()
    &&& forall|i: int|
        0 <= i < c1.completed_spans.len() ==> #[trigger] c1.completed_spans[i] == (SpanView {
            trace_id: c1.trace_id,
            ..c2.completed_spans[i]
        })
}

proof fn lemma_step_modulo_trace(
    c1: SpanContextView,
    c2: SpanContextView,
    e: EventView,
    sid: Seq<char>,
)
    requires
        same_modulo_trace(c1, c2),
    ensures
        spec_process(c1, e, sid).trace_id == c1.trace_id,
        spec_process(c2, e, sid).trace_id == c2.trace_id,
        same_modulo_trace(spec_process(c1, e, sid), spec_process(c2, e, sid)),
{
    let d1 = spec_process(c1, e, sid);
    let d2 = spec_process(c2, e, sid);
    assert(forall|i: int|
        0 <= i < d1.completed_spans.len() ==> #[trigger] d1.completed_spans[i] == (SpanView {
            trace_id: d1.trace_id,
            ..d2.completed_spans[i]
        }));
}

/// Resetting and replaying any event sequence gives the same spans as a
/// fresh engine fed the same sequence: only the trace identifier (and
/// the identifiers drawn for the spans) can differ.
pub proof fn lemma_reset_equals_fresh(
    t1: Seq<char>,
    t2: Seq<char>,
    evs: Seq<(EventView, Seq<char>)>,
)
    ensures
        same_modulo_trace(spec_run(spec_initial(t1), evs), spec_run(spec_initial(t2), evs)),
        spec_run(spec_initial(t1), evs).trace_id == t1,
        spec_run(spec_initial(t2), evs).trace_id == t2,
    decreases evs.len(),
{
    lemma_run_modulo_trace(spec_initial(t1), spec_initial(t2), evs);
}

proof fn lemma_run_modulo_trace(
    c1: SpanContextView,
    c2: SpanContextView,
    evs: Seq<(EventView, Seq<char>)>,
)
    requires
        same_modulo_trace(c1, c2),
    ensures
        same_modulo_trace(spec_run(c1, evs), spec_run(c2, evs)),
        spec_run(c1, evs).trace_id == c1.trace_id,
        spec_run(c2, evs).trace_id == c2.trace_id,
    decreases evs.len(),
{
    if evs.len() > 0 {
        lemma_step_modulo_trace(c1, c2, evs.first().0, evs.first().1);
        lemma_run_modulo_trace(
            spec_process(c1, evs.first().0, evs.first().1),
            spec_process(c2, evs.first().0, evs.first().1),
            evs.drop_first(),
        );
    }
}

} // verus!
