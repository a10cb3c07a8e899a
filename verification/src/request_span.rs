//! Derivation of the per-request root span from an inbound HTTP request.
//! The span is named `"<method> <matched route template>"`, falling back to
//! the literal request path when no template matched, so the collector
//! groups spans by logical endpoint instead of one bucket per literal path.

use vstd::prelude::*;
use vstd::string::StringExecFns;

verus! {

/// The kind of a span; a request's root span is a server-kind span.
#[derive(Clone, Copy, PartialEq, Eq, Structural, Debug)]
pub enum SpanKind {
    Server,
    Internal,
}

/// What the span derivation reads from an inbound request: its method, its
/// full URI, its protocol version, and the route template the router
/// matched, if any.
#[derive(Debug, Clone)]
pub struct RequestInfo {
    pub method: String,
    pub uri: String,
    pub version: String,
    pub matched_route: Option<String>,
}

/// The root span synthesized for one request: its name, the request
/// attributes it carries, and the two fixed conventional attributes that
/// mark it as a server-kind span with an explicit operation name.
#[derive(Debug, Clone)]
pub struct RootSpan {
    pub name: String,
    pub method: String,
    pub uri: String,
    pub version: String,
    pub operation_name: String,
    pub kind: SpanKind,
}

/// The root span's name: the request method and the matched route
/// template, separated by one space; the literal request path stands in
/// where no template matched.
pub open spec fn span_name(
    method: Seq<char>,
    matched_route: Option<Seq<char>>,
    uri: Seq<char>,
) -> Seq<char> {
    method + " "@ + (match matched_route {
        Option::Some(m) => m,
        Option::None => uri,
    })
}

/// Synthesizes the root span for each inbound request, before the handler
/// runs.
pub struct MakeSpanForHttp;

impl MakeSpanForHttp {
    /// Produces the request's root span: named by [`span_name`], carrying
    /// the request method, full URI and protocol version, marked as a
    /// server-kind span whose operation name equals the span name.
    pub fn make_span(&self, request: &RequestInfo) -> (s: RootSpan)
        ensures
            s.name@ == span_name(
                request.method@,
                match request.matched_route {
                    Option::Some(m) => Option::Some(m@),
                    Option::None => Option::None,
                },
                request.uri@,
            ),
            s.operation_name@ == s.name@,
            s.kind == SpanKind::Server,
            s.method@ == request.method@,
            s.uri@ == request.uri@,
            s.version@ == request.version@,
    {
        let template: &str = match &request.matched_route {
            Some(m) => m.as_str(),
            None => request.uri.as_str(),
        };
        let mut name: String = request.method.as_str().to_owned();
        name.append(" ");
        name.append(template);
        let operation_name = name.clone();
        RootSpan {
            name,
            method: request.method.clone(),
            uri: request.uri.clone(),
            version: request.version.clone(),
            operation_name,
            kind: SpanKind::Server,
        }
    }
}

} // verus!
