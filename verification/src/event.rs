//! The event model: one observed occurrence handed to the engine.

use vstd::prelude::*;

verus! {

/// One telemetry occurrence (an API request, a tool call, a wait marker).
///
/// Payloads appear in the form the engine reads them: the serialized
/// request and response texts, the payload's `event` name for wait
/// markers, and the timestamp in microseconds since the epoch.
pub struct TelemetryLogEntry {
    /// Event instant, in microseconds since the epoch.
    pub timestamp_micros: u64,
    /// Category tag: `complete`, `stream`, `stream_start`, `stream_end`,
    /// `api_post`, `wait_event`, or anything else.
    pub request_type: String,
    /// The remote counterpart's provider identifier; may be empty.
    pub provider: String,
    /// The remote counterpart's model identifier; may be empty.
    pub model: String,
    /// The request payload, serialized; absent when it could not be encoded.
    pub request_json: Option<String>,
    /// The `event` name carried in a wait marker's payload.
    pub event_name: Option<String>,
    /// The response payload, serialized, when there was one.
    pub response_json: Option<String>,
    /// An error message, when the occurrence failed.
    pub error: Option<String>,
    /// A duration precomputed by the caller, in milliseconds.
    pub duration_ms: Option<u64>,
}

/// The mathematical shape of an event.
pub ghost struct EventView {
    pub timestamp_micros: u64,
    pub request_type: Seq<char>,
    pub provider: Seq<char>,
    pub model: Seq<char>,
    pub request_json: Option<Seq<char>>,
    pub event_name: Option<Seq<char>>,
    pub response_json: Option<Seq<char>>,
    pub error: Option<Seq<char>>,
    pub duration_ms: Option<u64>,
}

impl View for TelemetryLogEntry {
    type V = EventView;

    open spec fn view(&self) -> EventView {
        EventView {
            timestamp_micros: self.timestamp_micros,
            request_type: self.request_type@,
            provider: self.provider@,
            model: self.model@,
            request_json: self.request_json.deep_view(),
            event_name: self.event_name.deep_view(),
            response_json: self.response_json.deep_view(),
            error: self.error.deep_view(),
            duration_ms: self.duration_ms,
        }
    }
}

} // verus!
