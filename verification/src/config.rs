//! Static configuration of the telemetry export pipeline: one exporter
//! configuration per signal kind, the shared resource identity, and the
//! pipeline plan that assembles them all-or-nothing.

use vstd::prelude::*;
use vstd::string::StrSliceExecFns;
use vstd::string::StringExecFns;

verus! {

/// The three telemetry signal kinds, each shipped through its own export
/// pipeline.
#[derive(Clone, Copy, PartialEq, Eq, Structural, Debug)]
pub enum SignalKind {
    Trace,
    Metric,
    Log,
}

/// The payload encoding used on the wire; a textual transport is chosen
/// over a binary one for collector interoperability.
#[derive(Clone, Copy, PartialEq, Eq, Structural, Debug)]
pub enum Encoding {
    JsonOverHttp,
}

/// Malformed exporter or transport configuration, detected at construction
/// time; fatal before the server ever binds.
#[derive(Clone, Copy, PartialEq, Eq, Structural, Debug)]
pub enum ConfigError {
    MalformedEndpoint,
}

/// The fixed path suffix appended to the collector base endpoint for a
/// signal kind.
pub open spec fn signal_suffix(kind: SignalKind) -> Seq<char> {
    match kind {
        SignalKind::Trace => "/v1/traces"@,
        SignalKind::Metric => "/v1/metrics"@,
        SignalKind::Log => "/v1/logs"@,
    }
}

/// Executable form of [`signal_suffix`].
pub fn signal_path(kind: SignalKind) -> (r: &'static str)
    ensures
        r@ == signal_suffix(kind),
{
    match kind {
        SignalKind::Trace => "/v1/traces",
        SignalKind::Metric => "/v1/metrics",
        SignalKind::Log => "/v1/logs",
    }
}

/// `s` begins with `prefix`.
pub open spec fn starts_with(s: Seq<char>, prefix: Seq<char>) -> bool {
    s.len() >= prefix.len() && s.subrange(0, prefix.len() as int) == prefix
}

/// A collector base endpoint is acceptable transport configuration exactly
/// when it carries an explicit `http` or `https` scheme.
pub open spec fn valid_endpoint(e: Seq<char>) -> bool {
    starts_with(e, "http://"@) || starts_with(e, "https://"@)
}

/// Executable prefix test, character by character.
pub fn has_prefix(s: &str, prefix: &str) -> (r: bool)
    ensures
        r == starts_with(s@, prefix@),
{
    let n: usize = prefix.unicode_len();
    let sn: usize = s.unicode_len();
    if sn < n {
        return false;
    }
    let mut i: usize = 0;
    while i < n
        invariant
            i <= n,
            n == prefix@.len(),
            sn == s@.len(),
            n <= sn,
            forall|j: int| 0 <= j < i ==> s@[j] == prefix@[j],
        decreases n - i,
    {
        if s.get_char(i) != prefix.get_char(i) {
            proof {
                if starts_with(s@, prefix@) {
                    assert(s@.subrange(0, prefix@.len() as int)[i as int] == prefix@[i as int]);
                }
            }
            return false;
        }
        i += 1;
    }
    proof {
        assert(s@.subrange(0, prefix@.len() as int) =~= prefix@);
    }
    true
}

/// Executable form of [`valid_endpoint`].
pub fn endpoint_is_valid(endpoint: &str) -> (r: bool)
    ensures
        r == valid_endpoint(endpoint@),
{
    has_prefix(endpoint, "http://") || has_prefix(endpoint, "https://")
}

/// Configuration of one signal exporter: the full endpoint (base plus the
/// per-kind suffix), the single static authentication header attached to
/// every outbound call, the encoding, and the signal kind it serves.
/// Immutable after construction.
#[derive(Debug, Clone)]
pub struct ExporterConfig {
    pub endpoint: String,
    pub header_name: String,
    pub header_value: String,
    pub encoding: Encoding,
    pub kind: SignalKind,
}

impl ExporterConfig {
    /// Builds the exporter configuration for one signal kind. Fails exactly
    /// on a malformed base endpoint; on success the endpoint is the base
    /// with the kind's suffix appended, the header is `api-key` with the
    /// license key as its value, and the encoding is JSON over HTTP.
    pub fn build(base_endpoint: &str, license_key: &str, kind: SignalKind) -> (r: Result<
        ExporterConfig,
        ConfigError,
    >)
        ensures
            r is Ok <==> valid_endpoint(base_endpoint@),
            r matches Ok(c) ==> {
                &&& c.endpoint@ == base_endpoint@ + signal_suffix(kind)
                &&& c.header_name@ == "api-key"@
                &&& c.header_value@ == license_key@
                &&& c.encoding == Encoding::JsonOverHttp
                &&& c.kind == kind
            },
            r is Err ==> r == Err::<ExporterConfig, ConfigError>(ConfigError::MalformedEndpoint),
    {
        if !endpoint_is_valid(base_endpoint) {
            return Err(ConfigError::MalformedEndpoint);
        }
        let mut endpoint: String = base_endpoint.to_owned();
        endpoint.append(signal_path(kind));
        Ok(
            ExporterConfig {
                endpoint,
                header_name: "api-key".to_owned(),
                header_value: license_key.to_owned(),
                encoding: Encoding::JsonOverHttp,
                kind,
            },
        )
    }
}

/// The static identity attributes attached identically to every exported
/// trace, metric and log record, so that cross-signal correlation by
/// resource identity works. Created once; never mutated.
#[derive(Debug, Clone)]
pub struct ResourceDescriptor {
    pub service_name: String,
    pub host_name: String,
}

impl ResourceDescriptor {
    /// Pure and total: the descriptor holds exactly the two given names.
    pub fn build(service_name: &str, host_name: &str) -> (r: ResourceDescriptor)
        ensures
            r.service_name@ == service_name@,
            r.host_name@ == host_name@,
    {
        ResourceDescriptor {
            service_name: service_name.to_owned(),
            host_name: host_name.to_owned(),
        }
    }
}

/// One observation layer of the subscriber chain. All layers receive every
/// instrumentation event; each independently decides whether to act.
#[derive(Clone, Copy, PartialEq, Eq, Structural, Debug)]
pub enum LayerKind {
    ConsoleFmt,
    SeverityFilter,
    TraceBridge,
    MetricsBridge,
    LogBridge,
}

/// The composition order of the subscriber chain. The order is a
/// correctness-relevant invariant of the design, not an incidental detail.
pub open spec fn subscriber_layer_order() -> Seq<LayerKind> {
    seq![
        LayerKind::ConsoleFmt,
        LayerKind::SeverityFilter,
        LayerKind::TraceBridge,
        LayerKind::MetricsBridge,
        LayerKind::LogBridge,
    ]
}

/// Everything the pipeline assembly needs, computed up front: exactly one
/// exporter configuration per signal kind, the single shared resource
/// identity, and the subscriber layers in their fixed order.
#[derive(Debug, Clone)]
pub struct PipelinePlan {
    pub trace_exporter: ExporterConfig,
    pub metric_exporter: ExporterConfig,
    pub log_exporter: ExporterConfig,
    pub resource: ResourceDescriptor,
    pub layers: Vec<LayerKind>,
}

/// Builds the full pipeline plan. Construction is all-or-nothing: it
/// succeeds exactly on a well-formed base endpoint, and then yields one
/// configuration per signal kind, all sharing the endpoint base, the
/// `api-key` header and the resource identity, with the subscriber layers
/// in their fixed order.
pub fn plan_pipeline(
    base_endpoint: &str,
    license_key: &str,
    service_name: &str,
    host_name: &str,
) -> (r: Result<PipelinePlan, ConfigError>)
    ensures
        r is Ok <==> valid_endpoint(base_endpoint@),
        r is Err ==> r == Err::<PipelinePlan, ConfigError>(ConfigError::MalformedEndpoint),
        r matches Ok(p) ==> {
            &&& p.trace_exporter.kind == SignalKind::Trace
            &&& p.trace_exporter.endpoint@ == base_endpoint@ + signal_suffix(SignalKind::Trace)
            &&& p.metric_exporter.kind == SignalKind::Metric
            &&& p.metric_exporter.endpoint@ == base_endpoint@ + signal_suffix(SignalKind::Metric)
            &&& p.log_exporter.kind == SignalKind::Log
            &&& p.log_exporter.endpoint@ == base_endpoint@ + signal_suffix(SignalKind::Log)
            &&& p.trace_exporter.header_name@ == "api-key"@
            &&& p.trace_exporter.header_value@ == license_key@
            &&& p.metric_exporter.header_name@ == "api-key"@
            &&& p.metric_exporter.header_value@ == license_key@
            &&& p.log_exporter.header_name@ == "api-key"@
            &&& p.log_exporter.header_value@ == license_key@
            &&& p.trace_exporter.encoding == Encoding::JsonOverHttp
            &&& p.metric_exporter.encoding == Encoding::JsonOverHttp
            &&& p.log_exporter.encoding == Encoding::JsonOverHttp
            &&& p.resource.service_name@ == service_name@
            &&& p.resource.host_name@ == host_name@
            &&& p.layers@ == subscriber_layer_order()
        },
{
    let trace_exporter = match ExporterConfig::build(base_endpoint, license_key, SignalKind::Trace) {
        Ok(c) => c,
        Err(e) => {
            return Err(e);
        },
    };
    let metric_exporter = match ExporterConfig::build(
        base_endpoint,
        license_key,
        SignalKind::Metric,
    ) {
        Ok(c) => c,
        Err(e) => {
            return Err(e);
        },
    };
    let log_exporter = match ExporterConfig::build(base_endpoint, license_key, SignalKind::Log) {
        Ok(c) => c,
        Err(e) => {
            return Err(e);
        },
    };
    let resource = ResourceDescriptor::build(service_name, host_name);
    let mut layers: Vec<LayerKind> = Vec::new();
    layers.push(LayerKind::ConsoleFmt);
    layers.push(LayerKind::SeverityFilter);
    layers.push(LayerKind::TraceBridge);
    layers.push(LayerKind::MetricsBridge);
    layers.push(LayerKind::LogBridge);
    proof {
        assert(layers@ =~= subscriber_layer_order());
    }
    Ok(PipelinePlan { trace_exporter, metric_exporter, log_exporter, resource, layers })
}

} // verus!
