use telemetry_logger::event::TelemetryLogEntry;
use telemetry_logger::policy::{
    create_span_name, create_tags, determine_span_kind, extract_event_type, local_endpoint,
    remote_endpoint,
};
use telemetry_logger::span::SpanKind;

fn entry(request_type: &str, provider: &str, model: &str) -> TelemetryLogEntry {
    TelemetryLogEntry {
        timestamp_micros: 0,
        request_type: request_type.to_string(),
        provider: provider.to_string(),
        model: model.to_string(),
        request_json: None,
        event_name: None,
        response_json: None,
        error: None,
        duration_ms: None,
    }
}

#[test]
fn span_kinds_by_request_type() {
    assert_eq!(determine_span_kind("complete"), Some(SpanKind::Client));
    assert_eq!(determine_span_kind("stream"), Some(SpanKind::Client));
    assert_eq!(determine_span_kind("stream_start"), Some(SpanKind::Client));
    assert_eq!(determine_span_kind("stream_end"), Some(SpanKind::Client));
    assert_eq!(determine_span_kind("api_post"), Some(SpanKind::Client));
    assert_eq!(determine_span_kind("wait_event"), Some(SpanKind::Server));
    assert_eq!(determine_span_kind("WAITING_FOR_USER_START"), Some(SpanKind::Server));
    assert_eq!(determine_span_kind("WAITING_LLM_START"), Some(SpanKind::Client));
    assert_eq!(determine_span_kind("WAITING_TOOL_END"), Some(SpanKind::Client));
    assert_eq!(determine_span_kind("something_else"), None);
}

#[test]
fn names_for_atomic_kinds() {
    assert_eq!(create_span_name(&entry("complete", "openai", "gpt-4")), "LLM Complete: gpt-4");
    assert_eq!(create_span_name(&entry("stream", "openai", "gpt-4")), "LLM Stream: gpt-4");
    assert_eq!(create_span_name(&entry("stream_end", "openai", "gpt-4")), "LLM Stream End: gpt-4");
    assert_eq!(
        create_span_name(&entry("api_post", "https://api.openai.com/v1/chat", "")),
        "HTTP POST: api.openai.com"
    );
    assert_eq!(create_span_name(&entry("api_post", "anthropic", "")), "API Call: anthropic");
    assert_eq!(create_span_name(&entry("tool_call", "", "")), "tool call");
}

#[test]
fn names_for_wait_markers() {
    let mut e = entry("wait_event", "agent", "gpt-4");
    e.event_name = Some("WAITING_FOR_USER_START".to_string());
    assert_eq!(create_span_name(&e), "User Input Start");
    e.event_name = Some("WAITING_FOR_USER_END".to_string());
    assert_eq!(create_span_name(&e), "User Input Complete");
    e.event_name = Some("WAITING_LLM_STREAM_CONNECTED".to_string());
    assert_eq!(create_span_name(&e), "LLM Stream Connected: gpt-4");
    e.event_name = Some("WAITING_TOOL_START: shell ".to_string());
    assert_eq!(create_span_name(&e), "Tool Start: shell");
    e.event_name = Some("WAITING_TOOL_END:browser".to_string());
    assert_eq!(create_span_name(&e), "Tool Complete: browser");
    e.event_name = Some("SOME_OTHER_EVENT".to_string());
    assert_eq!(create_span_name(&e), "some other event");
    e.event_name = None;
    assert_eq!(create_span_name(&e), "Wait Event");
}

#[test]
fn extract_event_type_only_for_wait_events() {
    let mut e = entry("wait_event", "", "");
    e.event_name = Some("WAITING_LLM_START".to_string());
    assert_eq!(extract_event_type(&e), Some("WAITING_LLM_START".to_string()));
    let mut e2 = entry("complete", "", "");
    e2.event_name = Some("WAITING_LLM_START".to_string());
    assert_eq!(extract_event_type(&e2), None);
}

#[test]
fn local_endpoint_is_fixed() {
    let ep = local_endpoint();
    assert_eq!(ep.service_name, "goose");
    assert_eq!(ep.ipv4, Some("127.0.0.1".to_string()));
    assert_eq!(ep.ipv6, None);
    assert_eq!(ep.port, Some(8080));
}

#[test]
fn remote_endpoint_denylist_and_hosts() {
    assert!(remote_endpoint("").is_none());
    assert!(remote_endpoint("agent").is_none());
    assert!(remote_endpoint("n/a").is_none());
    assert_eq!(remote_endpoint("openai").unwrap().service_name, "openai");
    assert_eq!(
        remote_endpoint("https://api.openai.com/v1/chat").unwrap().service_name,
        "api.openai.com"
    );
    assert_eq!(
        remote_endpoint("https://api.openai.com:443/v1").unwrap().service_name,
        "api.openai.com"
    );
    assert_eq!(remote_endpoint("http://localhost:8000").unwrap().service_name, "localhost");
}

#[test]
fn tags_carry_event_fields() {
    let mut e = entry("complete", "openai", "gpt-4");
    e.request_json = Some("{\"messages\":[]}".to_string());
    e.response_json = Some("{\"choices\":[]}".to_string());
    e.error = Some("boom".to_string());
    e.duration_ms = Some(1500);
    let tags = create_tags(&e);
    assert_eq!(tags.get("request_type").unwrap(), "complete");
    assert_eq!(tags.get("provider").unwrap(), "openai");
    assert_eq!(tags.get("model").unwrap(), "gpt-4");
    assert_eq!(tags.get("request.size").unwrap(), "15");
    assert_eq!(tags.get("request.preview").unwrap(), "{\"messages\":[]}");
    assert_eq!(tags.get("response.size").unwrap(), "14");
    assert_eq!(tags.get("error").unwrap(), "boom");
    assert_eq!(tags.get("error.kind").unwrap(), "true");
    assert_eq!(tags.get("duration_ms").unwrap(), "1500");
}

#[test]
fn tags_leave_absent_fields_out() {
    let e = entry("complete", "openai", "gpt-4");
    let tags = create_tags(&e);
    assert!(tags.get("request.size").is_none());
    assert!(tags.get("request.preview").is_none());
    assert!(tags.get("response.size").is_none());
    assert!(tags.get("error").is_none());
    assert!(tags.get("error.kind").is_none());
    assert!(tags.get("duration_ms").is_none());
}

#[test]
fn preview_truncates_at_two_hundred_characters() {
    let mut e = entry("complete", "openai", "gpt-4");
    e.request_json = Some("x".repeat(500));
    let tags = create_tags(&e);
    let preview = tags.get("request.preview").unwrap();
    assert_eq!(preview.chars().count(), 203);
    assert!(preview.ends_with("..."));
    assert_eq!(&preview[..200], "x".repeat(200).as_str());
    assert_eq!(tags.get("request.size").unwrap(), "500");
}

#[test]
fn preview_keeps_short_payloads_unchanged() {
    let mut e = entry("complete", "openai", "gpt-4");
    e.request_json = Some("y".repeat(200));
    let tags = create_tags(&e);
    assert_eq!(tags.get("request.preview").unwrap(), &"y".repeat(200));
}
