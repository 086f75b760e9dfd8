//! The span correlation engine.
//!
//! A `SpanContext` consumes one event at a time and either opens a
//! pending span (a `*_START` wait marker), closes the matching pending
//! span (`*_END`), annotates a pending span in place (a stream-connected
//! marker), or emits an immediate self-contained span.  A stack of open
//! span identifiers supplies the parent for anything opened while a
//! context-creating wait is in flight.
//!
//! The whole step is specified by [`spec_process`], a mathematical
//! function from the context's view, the event's view and the fresh span
//! identifier to the next view.

use crate::event::{EventView, TelemetryLogEntry};
use crate::ids::{generate_span_id, generate_trace_id, is_hex_id};
use crate::policy::{
    create_span_name, create_tags, determine_span_kind, extract_event_type, local_endpoint,
    remote_endpoint, spec_event_type, spec_local_endpoint, spec_remote_endpoint, spec_span_kind,
    spec_span_name, spec_tags,
};
use crate::span::{AnnotationView, SpanKind, SpanView, ZipkinAnnotation, ZipkinSpan};
use crate::strmap::StrMap;
use crate::text::{dec_str, str_eq_str, str_starts_with, strip_suffix_str, u64_to_string};
use vstd::prelude::*;

verus! {

/// The captured start state of a pending wait-marker pair.
pub struct ActiveSpan {
    pub span_id: String,
    pub parent_id: Option<String>,
    pub start_micros: u64,
    pub name: String,
    pub kind: Option<SpanKind>,
    pub tags: StrMap<String>,
}

/// The mathematical shape of a pending span.
pub ghost struct ActiveSpanView {
    pub span_id: Seq<char>,
    pub parent_id: Option<Seq<char>>,
    pub start_micros: u64,
    pub name: Seq<char>,
    pub kind: Option<SpanKind>,
    pub tags: Map<Seq<char>, Seq<char>>,
}

impl View for ActiveSpan {
    type V = ActiveSpanView;

    open spec fn view(&self) -> ActiveSpanView {
        ActiveSpanView {
            span_id: self.span_id@,
            parent_id: self.parent_id.deep_view(),
            start_micros: self.start_micros,
            name: self.name@,
            kind: self.kind,
            tags: self.tags@,
        }
    }
}

/// The per-trace state of the engine.
pub struct SpanContext {
    trace_id: String,
    current_span_stack: Vec<String>,
    active_spans: StrMap<ActiveSpan>,
    completed_spans: Vec<ZipkinSpan>,
}

/// The mathematical shape of the engine state.
pub ghost struct SpanContextView {
    pub trace_id: Seq<char>,
    pub current_span_stack: Seq<Seq<char>>,
    pub active_spans: Map<Seq<char>, ActiveSpanView>,
    pub completed_spans: Seq<SpanView>,
}

impl View for SpanContext {
    type V = SpanContextView;

    closed spec fn view(&self) -> SpanContextView {
        SpanContextView {
            trace_id: self.trace_id@,
            current_span_stack: self.current_span_stack.deep_view(),
            active_spans: self.active_spans@,
            completed_spans: self.completed_spans.deep_view(),
        }
    }
}

/// A context as it looks right after construction or a reset.
pub open spec fn spec_initial(trace_id: Seq<char>) -> SpanContextView {
    SpanContextView {
        trace_id,
        current_span_stack: Seq::empty(),
        active_spans: Map::empty(),
        completed_spans: Seq::empty(),
    }
}

/// The implicit parent: the top of the open-span stack.
pub open spec fn spec_parent_of(stack: Seq<Seq<char>>) -> Option<Seq<char>> {
    if stack.len() > 0 {
        Some(stack.last())
    } else {
        None
    }
}

/// Whether a pairing key opens a nesting context: an LLM-processing wait
/// or a tool-execution wait.
pub open spec fn spec_is_context_creating(key: Seq<char>) -> bool {
    "WAITING_LLM"@.is_prefix_of(key) || "WAITING_TOOL"@.is_prefix_of(key)
}

/// Whether a request type makes an immediate self-contained span.
pub open spec fn spec_is_atomic_kind(rt: Seq<char>) -> bool {
    rt == "api_post"@ || rt == "complete"@ || rt == "stream"@ || rt == "stream_start"@ || rt
        == "stream_end"@
}

/// The directional annotation pair of a closed wait span: client send and
/// receive, or server receive and send, at the two end instants.
pub open spec fn spec_pair_annotations(kind: Option<SpanKind>, start: u64, end: u64) -> Seq<
    AnnotationView,
> {
    match kind {
        Some(SpanKind::Client) => seq![
            AnnotationView { timestamp: start, value: "cs"@ },
            AnnotationView { timestamp: end, value: "cr"@ },
        ],
        Some(SpanKind::Server) => seq![
            AnnotationView { timestamp: start, value: "sr"@ },
            AnnotationView { timestamp: end, value: "ss"@ },
        ],
        None => Seq::empty(),
    }
}

/// The annotations of an immediate span: the send marker at the event
/// instant, and the receive marker after the precomputed duration when
/// one is known.
pub open spec fn spec_atomic_annotations(kind: Option<SpanKind>, ts: u64, dur: Option<u64>) -> Seq<
    AnnotationView,
> {
    match kind {
        Some(SpanKind::Client) => match dur {
            Some(d) => seq![
                AnnotationView { timestamp: ts, value: "cs"@ },
                AnnotationView {
                    timestamp: vstd::wrapping::u64_specs::wrapping_add(ts, d),
                    value: "cr"@,
                },
            ],
            None => seq![AnnotationView { timestamp: ts, value: "cs"@ }],
        },
        Some(SpanKind::Server) => match dur {
            Some(d) => seq![
                AnnotationView { timestamp: ts, value: "sr"@ },
                AnnotationView {
                    timestamp: vstd::wrapping::u64_specs::wrapping_add(ts, d),
                    value: "ss"@,
                },
            ],
            None => seq![AnnotationView { timestamp: ts, value: "sr"@ }],
        },
        None => Seq::empty(),
    }
}

/// The precomputed duration converted from milliseconds to microseconds.
pub open spec fn spec_duration_micros(ms: Option<u64>) -> Option<u64> {
    match ms {
        Some(m) => Some(vstd::wrapping::u64_specs::wrapping_mul(m, 1000)),
        None => None,
    }
}

/// A `*_START` wait marker: capture a pending span under the bare pairing
/// key, and push it onto the stack when the key creates a context.
pub open spec fn spec_on_start(ctx: SpanContextView, e: EventView, sid: Seq<char>) -> (r:
    SpanContextView) {
    let name = spec_event_type(e)->0;
    let key = name.take(name.len() - "_START"@.len());
    let active = ActiveSpanView {
        span_id: sid,
        parent_id: spec_parent_of(ctx.current_span_stack),
        start_micros: e.timestamp_micros,
        name: spec_span_name(e),
        kind: spec_span_kind(name),
        tags: spec_tags(e),
    };
    SpanContextView {
        active_spans: ctx.active_spans.insert(key, active),
        current_span_stack: if spec_is_context_creating(key) {
            ctx.current_span_stack.push(sid)
        } else {
            ctx.current_span_stack
        },
        ..ctx
    }
}

/// A `*_END` wait marker: close the matching pending span if one is
/// there, emitting the finished span with its duration and directional
/// annotations; an unmatched end changes nothing.
pub open spec fn spec_on_end(ctx: SpanContextView, e: EventView) -> (r: SpanContextView) {
    let name = spec_event_type(e)->0;
    let key = name.take(name.len() - "_END"@.len());
    if ctx.active_spans.contains_key(key) {
        let active = ctx.active_spans[key];
        let end = e.timestamp_micros;
        let span = SpanView {
            trace_id: ctx.trace_id,
            id: active.span_id,
            parent_id: active.parent_id,
            name: active.name,
            timestamp: active.start_micros,
            duration: Some(vstd::wrapping::u64_specs::wrapping_sub(end, active.start_micros)),
            kind: active.kind,
            local_endpoint: spec_local_endpoint(),
            remote_endpoint: spec_remote_endpoint(e.provider),
            annotations: spec_pair_annotations(active.kind, active.start_micros, end),
            tags: active.tags,
        };
        SpanContextView {
            active_spans: ctx.active_spans.remove(key),
            completed_spans: ctx.completed_spans.push(span),
            current_span_stack: if spec_is_context_creating(key) && ctx.current_span_stack.len()
                > 0 {
                ctx.current_span_stack.drop_last()
            } else {
                ctx.current_span_stack
            },
            ..ctx
        }
    } else {
        ctx
    }
}

/// A stream-connected marker: merge a timestamped tag into the pending
/// stream span, when one is there; never a span of its own.
pub open spec fn spec_on_connected(ctx: SpanContextView, e: EventView) -> (r: SpanContextView) {
    let key = "WAITING_LLM_STREAM"@;
    if ctx.active_spans.contains_key(key) {
        let active = ctx.active_spans[key];
        let updated = ActiveSpanView {
            tags: active.tags.insert(
                "stream.connected_at"@,
                dec_str(e.timestamp_micros as int),
            ),
            ..active
        };
        SpanContextView { active_spans: ctx.active_spans.insert(key, updated), ..ctx }
    } else {
        ctx
    }
}

/// An atomic kind: emit a complete span at once, under the current stack
/// top, with the kind the policy gives and directional annotations.
pub open spec fn spec_on_atomic(ctx: SpanContextView, e: EventView, sid: Seq<char>) -> (r:
    SpanContextView) {
    let ts = e.timestamp_micros;
    let dur = spec_duration_micros(e.duration_ms);
    let kind = spec_span_kind(e.request_type);
    let span = SpanView {
        trace_id: ctx.trace_id,
        id: sid,
        parent_id: spec_parent_of(ctx.current_span_stack),
        name: spec_span_name(e),
        timestamp: ts,
        duration: dur,
        kind,
        local_endpoint: spec_local_endpoint(),
        remote_endpoint: spec_remote_endpoint(e.provider),
        annotations: spec_atomic_annotations(kind, ts, dur),
        tags: spec_tags(e),
    };
    SpanContextView { completed_spans: ctx.completed_spans.push(span), ..ctx }
}

/// Anything else: emit a minimal span with no kind and no annotations.
pub open spec fn spec_on_other(ctx: SpanContextView, e: EventView, sid: Seq<char>) -> (r:
    SpanContextView) {
    let span = SpanView {
        trace_id: ctx.trace_id,
        id: sid,
        parent_id: spec_parent_of(ctx.current_span_stack),
        name: spec_span_name(e),
        timestamp: e.timestamp_micros,
        duration: spec_duration_micros(e.duration_ms),
        kind: None,
        local_endpoint: spec_local_endpoint(),
        remote_endpoint: spec_remote_endpoint(e.provider),
        annotations: Seq::empty(),
        tags: spec_tags(e),
    };
    SpanContextView { completed_spans: ctx.completed_spans.push(span), ..ctx }
}

/// One engine step: the first matching rule wins, in the order start,
/// end, connected, atomic, other.
pub open spec fn spec_process(ctx: SpanContextView, e: EventView, sid: Seq<char>) -> (r:
    SpanContextView) {
    let ev = spec_event_type(e);
    if ev is Some && "_START"@.is_suffix_of(ev->0) {
        spec_on_start(ctx, e, sid)
    } else if ev is Some && "_END"@.is_suffix_of(ev->0) {
        spec_on_end(ctx, e)
    } else if ev is Some && ev->0 == "WAITING_LLM_STREAM_CONNECTED"@ {
        spec_on_connected(ctx, e)
    } else if spec_is_atomic_kind(e.request_type) {
        spec_on_atomic(ctx, e, sid)
    } else {
        spec_on_other(ctx, e, sid)
    }
}

impl SpanContext {
    /// A fresh context with a random trace identifier and no state.
    pub fn new() -> (r: Self)
        ensures
            r@ == spec_initial(r@.trace_id),
            is_hex_id(r@.trace_id, 32),
    {
        let r = SpanContext {
            trace_id: generate_trace_id(),
            current_span_stack: Vec::new(),
            active_spans: StrMap::new(),
            completed_spans: Vec::new(),
        };
        proof {
            assert(r.current_span_stack.deep_view() =~= Seq::<Seq<char>>::empty());
            assert(r.completed_spans.deep_view() =~= Seq::<SpanView>::empty());
        }
        r
    }

    /// The context's trace identifier.
    pub fn trace_id(&self) -> (r: &String)
        ensures
            r@ == self@.trace_id,
    {
        &self.trace_id
    }

    /// The finished spans, oldest first.
    pub fn completed_spans(&self) -> (r: &Vec<ZipkinSpan>)
        ensures
            r.deep_view() == self@.completed_spans,
    {
        &self.completed_spans
    }

    /// The identifiers of the open context-creating spans, outermost first.
    pub fn open_span_stack(&self) -> (r: &Vec<String>)
        ensures
            r.deep_view() == self@.current_span_stack,
    {
        &self.current_span_stack
    }

    /// The identifier that a span opened now would nest under.
    pub fn get_current_parent(&self) -> (r: Option<String>)
        ensures
            r.deep_view() == spec_parent_of(self@.current_span_stack),
    {
        let n = self.current_span_stack.len();
        if n == 0 {
            None
        } else {
            let id = self.current_span_stack[n - 1].clone();
            proof {
                assert(self@.current_span_stack.last() == self.current_span_stack@[n - 1]@);
            }
            Some(id)
        }
    }

    fn push_span(&mut self, span_id: String)
        ensures
            final(self)@ == (SpanContextView {
                current_span_stack: old(self)@.current_span_stack.push(span_id@),
                ..old(self)@
            }),
    {
        self.current_span_stack.push(span_id);
        proof {
            assert(self.current_span_stack.deep_view() =~= old(
                self,
            )@.current_span_stack.push(self.current_span_stack@.last()@));
        }
    }

    fn pop_span(&mut self) -> (r: Option<String>)
        ensures
            final(self)@ == (SpanContextView {
                current_span_stack: if old(self)@.current_span_stack.len() > 0 {
                    old(self)@.current_span_stack.drop_last()
                } else {
                    old(self)@.current_span_stack
                },
                ..old(self)@
            }),
    {
        let r = self.current_span_stack.pop();
        proof {
            if old(self)@.current_span_stack.len() > 0 {
                assert(self.current_span_stack.deep_view() =~= old(
                    self,
                )@.current_span_stack.drop_last());
            } else {
                assert(self.current_span_stack.deep_view() =~= old(self)@.current_span_stack);
            }
        }
        r
    }

    fn on_start(&mut self, e: &TelemetryLogEntry, span_id: String, ev: &str, key: String)
        requires
            spec_event_type(e@) == Some(ev@),
            "_START"@.is_suffix_of(ev@),
            key@ == ev@.take(ev@.len() - "_START"@.len()),
        ensures
            final(self)@ == spec_on_start(old(self)@, e@, span_id@),
    {
        let parent_id = self.get_current_parent();
        let is_ctx = str_starts_with(key.as_str(), "WAITING_LLM") || str_starts_with(
            key.as_str(),
            "WAITING_TOOL",
        );
        let active = ActiveSpan {
            span_id: span_id.clone(),
            parent_id,
            start_micros: e.timestamp_micros,
            name: create_span_name(e),
            kind: determine_span_kind(ev),
            tags: create_tags(e),
        };
        self.active_spans.insert(key, active);
        if is_ctx {
            self.push_span(span_id);
        }
    }

    fn on_end(&mut self, e: &TelemetryLogEntry, ev: &str, key: String)
        requires
            spec_event_type(e@) == Some(ev@),
            "_END"@.is_suffix_of(ev@),
            key@ == ev@.take(ev@.len() - "_END"@.len()),
        ensures
            final(self)@ == spec_on_end(old(self)@, e@),
    {
        let is_ctx = str_starts_with(key.as_str(), "WAITING_LLM") || str_starts_with(
            key.as_str(),
            "WAITING_TOOL",
        );
        match self.active_spans.remove(key.as_str()) {
            Some(active) => {
                let end = e.timestamp_micros;
                let duration = end.wrapping_sub(active.start_micros);
                let mut annotations: Vec<ZipkinAnnotation> = Vec::new();
                match active.kind {
                    Some(SpanKind::Client) => {
                        annotations.push(
                            ZipkinAnnotation {
                                timestamp: active.start_micros,
                                value: "cs".to_owned(),
                            },
                        );
                        annotations.push(
                            ZipkinAnnotation { timestamp: end, value: "cr".to_owned() },
                        );
                    },
                    Some(SpanKind::Server) => {
                        annotations.push(
                            ZipkinAnnotation {
                                timestamp: active.start_micros,
                                value: "sr".to_owned(),
                            },
                        );
                        annotations.push(
                            ZipkinAnnotation { timestamp: end, value: "ss".to_owned() },
                        );
                    },
                    None => {},
                }
                proof {
                    assert(annotations.deep_view() =~= spec_pair_annotations(
                        active@.kind,
                        active@.start_micros,
                        end,
                    ));
                }
                let span = ZipkinSpan {
                    trace_id: self.trace_id.clone(),
                    id: active.span_id,
                    parent_id: active.parent_id,
                    name: active.name,
                    timestamp: active.start_micros,
                    duration: Some(duration),
                    kind: active.kind,
                    local_endpoint: local_endpoint(),
                    remote_endpoint: remote_endpoint(e.provider.as_str()),
                    annotations,
                    tags: active.tags,
                };
                let ghost pre = self.completed_spans.deep_view();
                self.completed_spans.push(span);
                proof {
                    assert(self.completed_spans.deep_view() =~= pre.push(
                        self.completed_spans@.last()@,
                    ));
                }
                if is_ctx {
                    let _ = self.pop_span();
                }
            },
            None => {},
        }
    }

    fn on_connected(&mut self, e: &TelemetryLogEntry)
        ensures
            final(self)@ == spec_on_connected(old(self)@, e@),
    {
        match self.active_spans.remove("WAITING_LLM_STREAM") {
            Some(mut active) => {
                active.tags.insert(
                    "stream.connected_at".to_owned(),
                    u64_to_string(e.timestamp_micros),
                );
                self.active_spans.insert("WAITING_LLM_STREAM".to_owned(), active);
                proof {
                    assert(old(self)@.active_spans.remove("WAITING_LLM_STREAM"@).insert(
                        "WAITING_LLM_STREAM"@,
                        self@.active_spans["WAITING_LLM_STREAM"@],
                    ) =~= old(self)@.active_spans.insert(
                        "WAITING_LLM_STREAM"@,
                        self@.active_spans["WAITING_LLM_STREAM"@],
                    ));
                }
            },
            None => {},
        }
    }

    fn on_immediate(&mut self, e: &TelemetryLogEntry, span_id: String, atomic: bool)
        requires
            atomic == spec_is_atomic_kind(e@.request_type),
        ensures
            atomic ==> final(self)@ == spec_on_atomic(old(self)@, e@, span_id@),
            !atomic ==> final(self)@ == spec_on_other(old(self)@, e@, span_id@),
    {
        let ts = e.timestamp_micros;
        let duration_micros = match e.duration_ms {
            Some(ms) => Some(ms.wrapping_mul(1000)),
            None => None,
        };
        let kind = if atomic {
            determine_span_kind(e.request_type.as_str())
        } else {
            None
        };
        let mut annotations: Vec<ZipkinAnnotation> = Vec::new();
        match kind {
            Some(SpanKind::Client) => {
                annotations.push(ZipkinAnnotation { timestamp: ts, value: "cs".to_owned() });
                if let Some(d) = duration_micros {
                    annotations.push(
                        ZipkinAnnotation { timestamp: ts.wrapping_add(d), value: "cr".to_owned() },
                    );
                }
            },
            Some(SpanKind::Server) => {
                annotations.push(ZipkinAnnotation { timestamp: ts, value: "sr".to_owned() });
                if let Some(d) = duration_micros {
                    annotations.push(
                        ZipkinAnnotation { timestamp: ts.wrapping_add(d), value: "ss".to_owned() },
                    );
                }
            },
            None => {},
        }
        proof {
            if atomic {
                assert(annotations.deep_view() =~= spec_atomic_annotations(
                    spec_span_kind(e@.request_type),
                    ts,
                    spec_duration_micros(e@.duration_ms),
                ));
            } else {
                assert(annotations.deep_view() =~= Seq::<AnnotationView>::empty());
            }
        }
        let parent_id = self.get_current_parent();
        let span = ZipkinSpan {
            trace_id: self.trace_id.clone(),
            id: span_id,
            parent_id,
            name: create_span_name(e),
            timestamp: ts,
            duration: duration_micros,
            kind,
            local_endpoint: local_endpoint(),
            remote_endpoint: remote_endpoint(e.provider.as_str()),
            annotations,
            tags: create_tags(e),
        };
        let ghost pre = self.completed_spans.deep_view();
        self.completed_spans.push(span);
        proof {
            assert(self.completed_spans.deep_view() =~= pre.push(self.completed_spans@.last()@));
        }
    }

    /// Consumes one event under a caller-chosen span identifier; the
    /// resulting state is exactly `spec_process` of the old state.
    pub fn process_with_span_id(&mut self, e: &TelemetryLogEntry, span_id: String)
        ensures
            final(self)@ == spec_process(old(self)@, e@, span_id@),
    {
        let is_atomic = str_eq_str(e.request_type.as_str(), "api_post") || str_eq_str(
            e.request_type.as_str(),
            "complete",
        ) || str_eq_str(e.request_type.as_str(), "stream") || str_eq_str(
            e.request_type.as_str(),
            "stream_start",
        ) || str_eq_str(e.request_type.as_str(), "stream_end");
        match extract_event_type(e) {
            Some(ev) => {
                if let Some(key) = strip_suffix_str(ev.as_str(), "_START") {
                    self.on_start(e, span_id, ev.as_str(), key);
                } else if let Some(key) = strip_suffix_str(ev.as_str(), "_END") {
                    self.on_end(e, ev.as_str(), key);
                } else if str_eq_str(ev.as_str(), "WAITING_LLM_STREAM_CONNECTED") {
                    self.on_connected(e);
                } else {
                    self.on_immediate(e, span_id, is_atomic);
                }
            },
            None => {
                self.on_immediate(e, span_id, is_atomic);
            },
        }
    }

    /// Consumes one event, drawing a fresh random span identifier.
    pub fn process(&mut self, e: &TelemetryLogEntry)
        ensures
            exists|sid: Seq<char>|
                is_hex_id(sid, 16) && final(self)@ == spec_process(old(self)@, e@, sid),
    {
        let sid = generate_span_id();
        let ghost s = sid@;
        self.process_with_span_id(e, sid);
        proof {
            assert(is_hex_id(s, 16) && self@ == spec_process(old(self)@, e@, s));
        }
    }

    /// Discards all state and starts a fresh trace.
    pub fn reset(&mut self)
        ensures
            final(self)@ == spec_initial(final(self)@.trace_id),
            is_hex_id(final(self)@.trace_id, 32),
    {
        *self = SpanContext::new();
    }
}

} // verus!
