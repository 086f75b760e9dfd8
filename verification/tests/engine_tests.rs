use telemetry_logger::engine::SpanContext;
use telemetry_logger::event::TelemetryLogEntry;
use telemetry_logger::span::SpanKind;

fn entry(request_type: &str, provider: &str, model: &str) -> TelemetryLogEntry {
    TelemetryLogEntry {
        timestamp_micros: 0,
        request_type: request_type.to_string(),
        provider: provider.to_string(),
        model: model.to_string(),
        request_json: None,
        event_name: None,
        response_json: None,
        error: None,
        duration_ms: None,
    }
}

fn wait_entry(event_name: &str, at_micros: u64) -> TelemetryLogEntry {
    let mut e = entry("wait_event", "agent", "n/a");
    e.timestamp_micros = at_micros;
    e.event_name = Some(event_name.to_string());
    e.request_json = Some(format!("{{\"event\":\"{}\"}}", event_name));
    e
}

#[test]
fn atomic_call_makes_client_span() {
    let mut ctx = SpanContext::new();
    let mut e = entry("complete", "openai", "gpt-4");
    e.timestamp_micros = 1_000_000;
    e.duration_ms = Some(1500);
    ctx.process(&e);
    let spans = ctx.completed_spans();
    assert_eq!(spans.len(), 1);
    let span = &spans[0];
    assert_eq!(span.kind, Some(SpanKind::Client));
    assert_eq!(span.duration, Some(1_500_000));
    assert_eq!(span.tags.get("provider").unwrap(), "openai");
    assert_eq!(span.tags.get("model").unwrap(), "gpt-4");
    assert_eq!(span.name, "LLM Complete: gpt-4");
    assert_eq!(span.timestamp, 1_000_000);
    assert_eq!(span.annotations.len(), 2);
    assert_eq!(span.annotations[0].value, "cs");
    assert_eq!(span.annotations[0].timestamp, 1_000_000);
    assert_eq!(span.annotations[1].value, "cr");
    assert_eq!(span.annotations[1].timestamp, 2_500_000);
    assert_eq!(span.trace_id, *ctx.trace_id());
}

#[test]
fn atomic_call_without_duration_has_single_annotation() {
    let mut ctx = SpanContext::new();
    let e = entry("stream_start", "openai", "gpt-4");
    ctx.process(&e);
    let spans = ctx.completed_spans();
    assert_eq!(spans.len(), 1);
    assert_eq!(spans[0].duration, None);
    assert_eq!(spans[0].annotations.len(), 1);
    assert_eq!(spans[0].annotations[0].value, "cs");
    assert_eq!(spans[0].name, "LLM Stream: gpt-4");
}

#[test]
fn wait_pair_emits_one_span_with_duration() {
    let mut ctx = SpanContext::new();
    ctx.process(&wait_entry("WAITING_LLM_START", 0));
    assert_eq!(ctx.completed_spans().len(), 0);
    ctx.process(&wait_entry("WAITING_LLM_END", 100_000));
    let spans = ctx.completed_spans();
    assert_eq!(spans.len(), 1);
    let span = &spans[0];
    assert!(span.duration.unwrap() >= 100_000);
    assert_eq!(span.duration, Some(100_000));
    assert_eq!(span.kind, Some(SpanKind::Client));
    assert_eq!(span.annotations.len(), 2);
    assert_eq!(span.annotations[0].value, "cs");
    assert_eq!(span.annotations[0].timestamp, 0);
    assert_eq!(span.annotations[1].value, "cr");
    assert_eq!(span.annotations[1].timestamp, 100_000);
    assert_eq!(span.name, "LLM Processing Start: n/a");
    assert!(span.tags.get("request.preview").unwrap().contains("WAITING_LLM"));
}

#[test]
fn unmatched_end_changes_nothing() {
    let mut ctx = SpanContext::new();
    ctx.process(&wait_entry("WAITING_LLM_END", 5));
    assert_eq!(ctx.completed_spans().len(), 0);
    assert_eq!(ctx.open_span_stack().len(), 0);
}

#[test]
fn nested_pairs_link_parent_and_child() {
    let mut ctx = SpanContext::new();
    ctx.process_with_span_id(&wait_entry("WAITING_TOOL_START", 0), "00000000000000aa".to_string());
    ctx.process_with_span_id(&wait_entry("WAITING_LLM_START", 10), "00000000000000bb".to_string());
    assert_eq!(ctx.open_span_stack().len(), 2);
    ctx.process_with_span_id(&wait_entry("WAITING_LLM_END", 20), "00000000000000cc".to_string());
    ctx.process_with_span_id(&wait_entry("WAITING_TOOL_END", 30), "00000000000000dd".to_string());
    let spans = ctx.completed_spans();
    assert_eq!(spans.len(), 2);
    let inner = &spans[0];
    let outer = &spans[1];
    assert_eq!(inner.id, "00000000000000bb");
    assert_eq!(inner.parent_id, Some("00000000000000aa".to_string()));
    assert_eq!(outer.id, "00000000000000aa");
    assert_eq!(outer.parent_id, None);
    assert_eq!(ctx.open_span_stack().len(), 0);
}

#[test]
fn connected_marker_merges_tag_without_span() {
    let mut ctx = SpanContext::new();
    ctx.process(&wait_entry("WAITING_LLM_STREAM_START", 0));
    assert_eq!(ctx.completed_spans().len(), 0);
    ctx.process(&wait_entry("WAITING_LLM_STREAM_CONNECTED", 42));
    assert_eq!(ctx.completed_spans().len(), 0);
    assert_eq!(ctx.open_span_stack().len(), 1);
    ctx.process(&wait_entry("WAITING_LLM_STREAM_END", 100));
    let spans = ctx.completed_spans();
    assert_eq!(spans.len(), 1);
    assert_eq!(spans[0].tags.get("stream.connected_at").unwrap(), "42");
}

#[test]
fn connected_marker_without_pending_stream_is_dropped() {
    let mut ctx = SpanContext::new();
    ctx.process(&wait_entry("WAITING_LLM_STREAM_CONNECTED", 42));
    assert_eq!(ctx.completed_spans().len(), 0);
    assert_eq!(ctx.open_span_stack().len(), 0);
}

#[test]
fn second_start_for_same_key_wins() {
    let mut ctx = SpanContext::new();
    ctx.process_with_span_id(&wait_entry("WAITING_LLM_START", 0), "0000000000000001".to_string());
    ctx.process_with_span_id(&wait_entry("WAITING_LLM_START", 50), "0000000000000002".to_string());
    ctx.process_with_span_id(&wait_entry("WAITING_LLM_END", 80), "0000000000000003".to_string());
    let spans = ctx.completed_spans();
    assert_eq!(spans.len(), 1);
    assert_eq!(spans[0].id, "0000000000000002");
    assert_eq!(spans[0].timestamp, 50);
    assert_eq!(spans[0].duration, Some(30));
}

#[test]
fn unknown_kind_makes_minimal_span() {
    let mut ctx = SpanContext::new();
    let e = entry("custom_thing", "", "");
    ctx.process(&e);
    let spans = ctx.completed_spans();
    assert_eq!(spans.len(), 1);
    assert_eq!(spans[0].kind, None);
    assert_eq!(spans[0].annotations.len(), 0);
    assert_eq!(spans[0].name, "custom thing");
    assert!(spans[0].remote_endpoint.is_none());
}

#[test]
fn wait_event_without_pair_suffix_makes_minimal_span() {
    let mut ctx = SpanContext::new();
    ctx.process(&wait_entry("WAITING_HMM", 7));
    let spans = ctx.completed_spans();
    assert_eq!(spans.len(), 1);
    assert_eq!(spans[0].kind, None);
    assert_eq!(spans[0].annotations.len(), 0);
    assert_eq!(spans[0].name, "waiting hmm");
    assert_eq!(ctx.open_span_stack().len(), 0);
}

#[test]
fn user_wait_pair_is_server_and_keeps_stack_flat() {
    let mut ctx = SpanContext::new();
    ctx.process(&wait_entry("WAITING_FOR_USER_START", 0));
    assert_eq!(ctx.open_span_stack().len(), 0);
    ctx.process(&wait_entry("WAITING_FOR_USER_END", 60));
    let spans = ctx.completed_spans();
    assert_eq!(spans.len(), 1);
    assert_eq!(spans[0].kind, Some(SpanKind::Server));
    assert_eq!(spans[0].duration, Some(60));
    assert_eq!(spans[0].name, "User Input Start");
    assert_eq!(spans[0].annotations[0].value, "sr");
    assert_eq!(spans[0].annotations[1].value, "ss");
    assert_eq!(spans[0].parent_id, None);
}

#[test]
fn atomic_span_nests_under_open_context() {
    let mut ctx = SpanContext::new();
    ctx.process_with_span_id(&wait_entry("WAITING_TOOL_START", 0), "00000000000000ee".to_string());
    let mut e = entry("complete", "openai", "gpt-4");
    e.timestamp_micros = 5;
    ctx.process(&e);
    let spans = ctx.completed_spans();
    assert_eq!(spans.len(), 1);
    assert_eq!(spans[0].parent_id, Some("00000000000000ee".to_string()));
}

#[test]
fn reset_replays_like_a_fresh_engine() {
    let events = vec![
        wait_entry("WAITING_TOOL_START", 0),
        wait_entry("WAITING_LLM_START", 5),
        wait_entry("WAITING_LLM_END", 15),
        wait_entry("WAITING_TOOL_END", 25),
    ];
    let sids = ["000000000000000a", "000000000000000b", "000000000000000c", "000000000000000d"];

    let mut used = SpanContext::new();
    used.process(&entry("complete", "openai", "gpt-4"));
    let old_trace = used.trace_id().clone();
    used.reset();
    assert_ne!(*used.trace_id(), old_trace);
    assert_eq!(used.completed_spans().len(), 0);

    let mut fresh = SpanContext::new();
    for (e, sid) in events.iter().zip(sids.iter()) {
        used.process_with_span_id(e, sid.to_string());
        fresh.process_with_span_id(e, sid.to_string());
    }
    let a = used.completed_spans();
    let b = fresh.completed_spans();
    assert_eq!(a.len(), b.len());
    for (x, y) in a.iter().zip(b.iter()) {
        assert_eq!(x.id, y.id);
        assert_eq!(x.parent_id, y.parent_id);
        assert_eq!(x.name, y.name);
        assert_eq!(x.timestamp, y.timestamp);
        assert_eq!(x.duration, y.duration);
        assert_eq!(x.kind, y.kind);
        assert_eq!(x.trace_id, *used.trace_id());
        assert_eq!(y.trace_id, *fresh.trace_id());
    }
}

#[test]
fn out_of_order_end_wraps_duration() {
    let mut ctx = SpanContext::new();
    ctx.process(&wait_entry("WAITING_LLM_START", 100));
    ctx.process(&wait_entry("WAITING_LLM_END", 40));
    let spans = ctx.completed_spans();
    assert_eq!(spans.len(), 1);
    assert_eq!(spans[0].duration, Some(u64::MAX - 59));
}
