//! The span model: the output records in the Zipkin wire format.

use crate::strmap::StrMap;
use vstd::prelude::*;

verus! {

/// The direction of a span: who waited on whom.
#[derive(Clone, Copy, PartialEq, Eq, Structural, Debug)]
pub enum SpanKind {
    /// An outbound call to a remote service.
    Client,
    /// Waiting to serve the local user.
    Server,
}

/// One network endpoint named by a span.
pub struct ZipkinEndpoint {
    pub service_name: String,
    pub ipv4: Option<String>,
    pub ipv6: Option<String>,
    pub port: Option<u16>,
}

/// The mathematical shape of an endpoint.
pub ghost struct EndpointView {
    pub service_name: Seq<char>,
    pub ipv4: Option<Seq<char>>,
    pub ipv6: Option<Seq<char>>,
    pub port: Option<u16>,
}

impl View for ZipkinEndpoint {
    type V = EndpointView;

    open spec fn view(&self) -> EndpointView {
        EndpointView {
            service_name: self.service_name@,
            ipv4: self.ipv4.deep_view(),
            ipv6: self.ipv6.deep_view(),
            port: self.port,
        }
    }
}

impl DeepView for ZipkinEndpoint {
    type V = EndpointView;

    open spec fn deep_view(&self) -> EndpointView {
        self.view()
    }
}

/// A timestamped marker attached to a span (`cs`, `cr`, `sr`, `ss`).
pub struct ZipkinAnnotation {
    /// Microseconds since the epoch.
    pub timestamp: u64,
    pub value: String,
}

/// The mathematical shape of an annotation.
pub ghost struct AnnotationView {
    pub timestamp: u64,
    pub value: Seq<char>,
}

impl View for ZipkinAnnotation {
    type V = AnnotationView;

    open spec fn view(&self) -> AnnotationView {
        AnnotationView { timestamp: self.timestamp, value: self.value@ }
    }
}

impl DeepView for ZipkinAnnotation {
    type V = AnnotationView;

    open spec fn deep_view(&self) -> AnnotationView {
        self.view()
    }
}

/// One timed, named unit of work in a trace.
pub struct ZipkinSpan {
    /// The owning trace's identifier, 32 hexadecimal digits.
    pub trace_id: String,
    /// This span's identifier, 16 hexadecimal digits.
    pub id: String,
    /// The span this one nests under, when there is one.
    pub parent_id: Option<String>,
    pub name: String,
    /// Start instant, in microseconds since the epoch.
    pub timestamp: u64,
    /// Length of the span, in microseconds, when known.
    pub duration: Option<u64>,
    pub kind: Option<SpanKind>,
    pub local_endpoint: ZipkinEndpoint,
    pub remote_endpoint: Option<ZipkinEndpoint>,
    pub annotations: Vec<ZipkinAnnotation>,
    pub tags: StrMap<String>,
}

/// The mathematical shape of a span.
pub ghost struct SpanView {
    pub trace_id: Seq<char>,
    pub id: Seq<char>,
    pub parent_id: Option<Seq<char>>,
    pub name: Seq<char>,
    pub timestamp: u64,
    pub duration: Option<u64>,
    pub kind: Option<SpanKind>,
    pub local_endpoint: EndpointView,
    pub remote_endpoint: Option<EndpointView>,
    pub annotations: Seq<AnnotationView>,
    pub tags: Map<Seq<char>, Seq<char>>,
}

impl View for ZipkinSpan {
    type V = SpanView;

    open spec fn view(&self) -> SpanView {
        SpanView {
            trace_id: self.trace_id@,
            id: self.id@,
            parent_id: self.parent_id.deep_view(),
            name: self.name@,
            timestamp: self.timestamp,
            duration: self.duration,
            kind: self.kind,
            local_endpoint: self.local_endpoint@,
            remote_endpoint: self.remote_endpoint.deep_view(),
            annotations: self.annotations.deep_view(),
            tags: self.tags@,
        }
    }
}

impl DeepView for ZipkinSpan {
    type V = SpanView;

    open spec fn deep_view(&self) -> SpanView {
        self.view()
    }
}

} // verus!
