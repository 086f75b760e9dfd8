//! Naming and classification policy.
//!
//! Pure functions deriving a span's name, kind, endpoints and tags from an
//! event's content, each proved against a spec twin.

use crate::event::{EventView, TelemetryLogEntry};
use crate::polyfill::{lower_of, lowercase};
use crate::span::{EndpointView, SpanKind, ZipkinEndpoint};
use crate::strmap::StrMap;
use crate::text::{
    before_colon, concat2, dec_str, spec_before_colon, spec_third_seg, spec_trim,
    spec_underscore_to_space, str_eq_str, str_starts_with, third_slash_segment, trim_str,
    underscores_to_spaces, usize_to_string,
};
use vstd::prelude::*;
use vstd::string::StrSliceExecFns;

verus! {

/// How many characters of the serialized request the preview keeps.
pub const PREVIEW_LIMIT: usize = 200;

/// The span kind derived from a request type or a wait-marker name:
/// outbound and model-facing work is `Client`, waiting on the user is
/// `Server`, anything unrecognized has no kind.
pub open spec fn spec_span_kind(s: Seq<char>) -> Option<SpanKind> {
    if s == "complete"@ || s == "stream"@ || s == "stream_start"@ || s == "stream_end"@ || s
        == "api_post"@ {
        Some(SpanKind::Client)
    } else if s == "wait_event"@ {
        Some(SpanKind::Server)
    } else if "WAITING_FOR_USER"@.is_prefix_of(s) {
        Some(SpanKind::Server)
    } else if "WAITING_LLM"@.is_prefix_of(s) || "WAITING_TOOL"@.is_prefix_of(s) {
        Some(SpanKind::Client)
    } else {
        None
    }
}

/// Derives the span kind for a request type or wait-marker name.
pub fn determine_span_kind(s: &str) -> (r: Option<SpanKind>)
    ensures
        r == spec_span_kind(s@),
{
    if str_eq_str(s, "complete") || str_eq_str(s, "stream") || str_eq_str(s, "stream_start")
        || str_eq_str(s, "stream_end") || str_eq_str(s, "api_post") {
        Some(SpanKind::Client)
    } else if str_eq_str(s, "wait_event") {
        Some(SpanKind::Server)
    } else if str_starts_with(s, "WAITING_FOR_USER") {
        Some(SpanKind::Server)
    } else if str_starts_with(s, "WAITING_LLM") || str_starts_with(s, "WAITING_TOOL") {
        Some(SpanKind::Client)
    } else {
        None
    }
}

/// The wait-marker name carried by an event, present only for the
/// `wait_event` request type.
pub open spec fn spec_event_type(e: EventView) -> Option<Seq<char>> {
    if e.request_type == "wait_event"@ {
        e.event_name
    } else {
        None
    }
}

/// Extracts the wait-marker name from a `wait_event` entry.
pub fn extract_event_type(e: &TelemetryLogEntry) -> (r: Option<String>)
    ensures
        match r {
            Some(s) => spec_event_type(e@) == Some(s@),
            None => spec_event_type(e@) is None,
        },
{
    if str_eq_str(e.request_type.as_str(), "wait_event") {
        match &e.event_name {
            Some(name) => Some(name.clone()),
            None => None,
        }
    } else {
        None
    }
}

/// The human-readable name of a wait marker: a lookup table keyed by the
/// exact marker name, tool markers named after the tool identifier that
/// follows the colon, and a spaced lower-case fallback.
pub open spec fn spec_wait_name(ev: Seq<char>, model: Seq<char>) -> Seq<char> {
    if ev == "WAITING_FOR_USER_START"@ {
        "User Input Start"@
    } else if ev == "WAITING_FOR_USER_END"@ {
        "User Input Complete"@
    } else if ev == "WAITING_LLM_START"@ {
        "LLM Processing Start: "@ + model
    } else if ev == "WAITING_LLM_END"@ {
        "LLM Processing Complete: "@ + model
    } else if ev == "WAITING_LLM_STREAM_START"@ {
        "LLM Stream Start: "@ + model
    } else if ev == "WAITING_LLM_STREAM_END"@ {
        "LLM Stream Complete: "@ + model
    } else if ev == "WAITING_LLM_STREAM_CONNECTED"@ {
        "LLM Stream Connected: "@ + model
    } else if "WAITING_TOOL_START:"@.is_prefix_of(ev) {
        "Tool Start: "@ + spec_trim(ev.skip("WAITING_TOOL_START:"@.len() as int))
    } else if "WAITING_TOOL_END:"@.is_prefix_of(ev) {
        "Tool Complete: "@ + spec_trim(ev.skip("WAITING_TOOL_END:"@.len() as int))
    } else {
        lower_of(spec_underscore_to_space(ev))
    }
}

/// The human-readable name of a span derived from the whole event.
pub open spec fn spec_span_name(e: EventView) -> Seq<char> {
    if e.request_type == "complete"@ {
        "LLM Complete: "@ + e.model
    } else if e.request_type == "stream"@ || e.request_type == "stream_start"@ {
        "LLM Stream: "@ + e.model
    } else if e.request_type == "stream_end"@ {
        "LLM Stream End: "@ + e.model
    } else if e.request_type == "api_post"@ {
        if "http"@.is_prefix_of(e.provider) {
            "HTTP POST: "@ + spec_third_seg(e.provider)
        } else {
            "API Call: "@ + e.provider
        }
    } else if e.request_type == "wait_event"@ {
        match e.event_name {
            Some(ev) => spec_wait_name(ev, e.model),
            None => "Wait Event"@,
        }
    } else {
        spec_underscore_to_space(e.request_type)
    }
}

fn wait_name(ev: &str, model: &str) -> (r: String)
    ensures
        r@ == spec_wait_name(ev@, model@),
{
    if str_eq_str(ev, "WAITING_FOR_USER_START") {
        "User Input Start".to_owned()
    } else if str_eq_str(ev, "WAITING_FOR_USER_END") {
        "User Input Complete".to_owned()
    } else if str_eq_str(ev, "WAITING_LLM_START") {
        concat2("LLM Processing Start: ", model)
    } else if str_eq_str(ev, "WAITING_LLM_END") {
        concat2("LLM Processing Complete: ", model)
    } else if str_eq_str(ev, "WAITING_LLM_STREAM_START") {
        concat2("LLM Stream Start: ", model)
    } else if str_eq_str(ev, "WAITING_LLM_STREAM_END") {
        concat2("LLM Stream Complete: ", model)
    } else if str_eq_str(ev, "WAITING_LLM_STREAM_CONNECTED") {
        concat2("LLM Stream Connected: ", model)
    } else if str_starts_with(ev, "WAITING_TOOL_START:") {
        let plen = "WAITING_TOOL_START:".unicode_len();
        let rest = ev.substring_char(plen, ev.unicode_len());
        proof {
            assert(rest@ =~= ev@.skip("WAITING_TOOL_START:"@.len() as int));
        }
        let tool = trim_str(rest);
        concat2("Tool Start: ", tool.as_str())
    } else if str_starts_with(ev, "WAITING_TOOL_END:") {
        let plen = "WAITING_TOOL_END:".unicode_len();
        let rest = ev.substring_char(plen, ev.unicode_len());
        proof {
            assert(rest@ =~= ev@.skip("WAITING_TOOL_END:"@.len() as int));
        }
        let tool = trim_str(rest);
        concat2("Tool Complete: ", tool.as_str())
    } else {
        let spaced = underscores_to_spaces(ev);
        lowercase(spaced.as_str())
    }
}

/// Derives the human-readable span name for an event.
pub fn create_span_name(e: &TelemetryLogEntry) -> (r: String)
    ensures
        r@ == spec_span_name(e@),
{
    let rt = e.request_type.as_str();
    if str_eq_str(rt, "complete") {
        concat2("LLM Complete: ", e.model.as_str())
    } else if str_eq_str(rt, "stream") || str_eq_str(rt, "stream_start") {
        concat2("LLM Stream: ", e.model.as_str())
    } else if str_eq_str(rt, "stream_end") {
        concat2("LLM Stream End: ", e.model.as_str())
    } else if str_eq_str(rt, "api_post") {
        if str_starts_with(e.provider.as_str(), "http") {
            let host = third_slash_segment(e.provider.as_str());
            concat2("HTTP POST: ", host.as_str())
        } else {
            concat2("API Call: ", e.provider.as_str())
        }
    } else if str_eq_str(rt, "wait_event") {
        match &e.event_name {
            Some(ev) => wait_name(ev.as_str(), e.model.as_str()),
            None => "Wait Event".to_owned(),
        }
    } else {
        underscores_to_spaces(rt)
    }
}

/// The endpoint every span reports as its local side.
pub open spec fn spec_local_endpoint() -> EndpointView {
    EndpointView {
        service_name: "goose"@,
        ipv4: Some("127.0.0.1"@),
        ipv6: None,
        port: Some(8080u16),
    }
}

/// The local service's endpoint.
pub fn local_endpoint() -> (r: ZipkinEndpoint)
    ensures
        r@ == spec_local_endpoint(),
{
    ZipkinEndpoint {
        service_name: "goose".to_owned(),
        ipv4: Some("127.0.0.1".to_owned()),
        ipv6: None,
        port: Some(8080),
    }
}

/// The remote endpoint derived from a provider identifier: absent for an
/// empty identifier and for the `agent` and `n/a` sentinels; the host part
/// for a URL; otherwise the identifier itself.
pub open spec fn spec_remote_endpoint(p: Seq<char>) -> Option<EndpointView> {
    if p.len() == 0 || p == "agent"@ || p == "n/a"@ {
        None
    } else {
        let service = if "http"@.is_prefix_of(p) {
            spec_before_colon(spec_third_seg(p))
        } else {
            p
        };
        Some(EndpointView { service_name: service, ipv4: None, ipv6: None, port: None })
    }
}

/// Derives the remote endpoint for a provider identifier.
pub fn remote_endpoint(provider: &str) -> (r: Option<ZipkinEndpoint>)
    ensures
        match r {
            Some(ep) => spec_remote_endpoint(provider@) == Some(ep@),
            None => spec_remote_endpoint(provider@) is None,
        },
{
    if provider.unicode_len() == 0 || str_eq_str(provider, "agent") || str_eq_str(
        provider,
        "n/a",
    ) {
        return None;
    }
    let service_name = if str_starts_with(provider, "http") {
        let seg = third_slash_segment(provider);
        before_colon(seg.as_str())
    } else {
        provider.to_owned()
    };
    Some(ZipkinEndpoint { service_name, ipv4: None, ipv6: None, port: None })
}

/// The serialized request cut to the preview limit, with an ellipsis
/// marker when anything was cut.
pub open spec fn spec_preview(s: Seq<char>) -> Seq<char> {
    if s.len() <= PREVIEW_LIMIT {
        s
    } else {
        s.take(PREVIEW_LIMIT as int) + "..."@
    }
}

/// The byte length of a string's UTF-8 encoding, as `str::len` reports it.
pub open spec fn spec_byte_len(s: Seq<char>) -> int {
    vstd::utf8::encode_utf8(s).len() as usize as int
}

/// The tag set of a span: the event's category, counterpart and payload
/// measurements, error information and precomputed duration.
pub open spec fn spec_tags(e: EventView) -> Map<Seq<char>, Seq<char>> {
    let m0 = Map::<Seq<char>, Seq<char>>::empty().insert("request_type"@, e.request_type).insert(
        "provider"@,
        e.provider,
    ).insert("model"@, e.model);
    let m1 = match e.request_json {
        Some(rj) => m0.insert("request.size"@, dec_str(spec_byte_len(rj))).insert(
            "request.preview"@,
            spec_preview(rj),
        ),
        None => m0,
    };
    let m2 = match e.response_json {
        Some(rs) => m1.insert("response.size"@, dec_str(spec_byte_len(rs))),
        None => m1,
    };
    let m3 = match e.error {
        Some(err) => m2.insert("error"@, err).insert("error.kind"@, "true"@),
        None => m2,
    };
    match e.duration_ms {
        Some(ms) => m3.insert("duration_ms"@, dec_str(ms as int)),
        None => m3,
    }
}

fn preview_of(s: &str) -> (r: String)
    ensures
        r@ == spec_preview(s@),
{
    let slen = s.unicode_len();
    if slen <= PREVIEW_LIMIT {
        s.to_owned()
    } else {
        let head = s.substring_char(0, PREVIEW_LIMIT);
        proof {
            assert(head@ =~= s@.take(PREVIEW_LIMIT as int));
        }
        concat2(head, "...")
    }
}

/// Derives the tag set for an event.
pub fn create_tags(e: &TelemetryLogEntry) -> (t: StrMap<String>)
    ensures
        t@ == spec_tags(e@),
{
    let mut t: StrMap<String> = StrMap::new();
    t.insert("request_type".to_owned(), e.request_type.clone());
    t.insert("provider".to_owned(), e.provider.clone());
    t.insert("model".to_owned(), e.model.clone());
    if let Some(rj) = &e.request_json {
        t.insert("request.size".to_owned(), usize_to_string(rj.as_str().len()));
        t.insert("request.preview".to_owned(), preview_of(rj.as_str()));
    }
    if let Some(rs) = &e.response_json {
        t.insert("response.size".to_owned(), usize_to_string(rs.as_str().len()));
    }
    if let Some(err) = &e.error {
        t.insert("error".to_owned(), err.clone());
        t.insert("error.kind".to_owned(), "true".to_owned());
    }
    if let Some(ms) = e.duration_ms {
        t.insert("duration_ms".to_owned(), crate::text::u64_to_string(ms));
    }
    t
}

} // verus!
