//! Assembly of the real telemetry stack behind the verified plan: the three
//! OTLP/HTTP-JSON exporters, their batching providers, the process-wide
//! ambient trace provider, and the five-layer subscriber chain installed as
//! the single global sink.

use vstd::prelude::*;

use crate::config::ConfigError;
use crate::config::ExporterConfig;
use crate::config::PipelinePlan;
use crate::config::ResourceDescriptor;
use crate::config::plan_pipeline;
use crate::config::valid_endpoint;
use opentelemetry::trace::TracerProvider as _;
use opentelemetry_appender_tracing::layer::OpenTelemetryTracingBridge;
use opentelemetry_otlp::LogExporter;
use opentelemetry_otlp::MetricExporter;
use opentelemetry_otlp::Protocol;
use opentelemetry_otlp::SpanExporter;
use opentelemetry_otlp::WithExportConfig;
use opentelemetry_otlp::WithHttpConfig;
use opentelemetry_sdk::Resource;
use opentelemetry_sdk::logs::LoggerProvider;
use opentelemetry_sdk::metrics::SdkMeterProvider;
use opentelemetry_sdk::trace::TracerProvider as SdkTracerProvider;
use tracing_subscriber::EnvFilter;
use tracing_subscriber::layer::SubscriberExt;
use tracing_subscriber::util::SubscriberInitExt;
use vstd::string::is_ascii;
use vstd::utf8::is_ascii_chars;

verus! {

#[verifier::external_type_specification]
#[verifier::external_body]
pub struct ExSpanExporter(SpanExporter);

#[verifier::external_type_specification]
#[verifier::external_body]
pub struct ExMetricExporter(MetricExporter);

#[verifier::external_type_specification]
#[verifier::external_body]
pub struct ExLogExporter(LogExporter);

#[verifier::external_type_specification]
#[verifier::external_body]
pub struct ExResource(Resource);

#[verifier::external_type_specification]
#[verifier::external_body]
pub struct ExTracerProvider(SdkTracerProvider);

#[verifier::external_type_specification]
#[verifier::external_body]
pub struct ExMeterProvider(SdkMeterProvider);

#[verifier::external_type_specification]
#[verifier::external_body]
pub struct ExLoggerProvider(LoggerProvider);

/// Any failure of pipeline initialization; construction is all-or-nothing,
/// so any one of these aborts startup before the server binds.
#[derive(Clone, Copy, PartialEq, Eq, Structural, Debug)]
pub enum InitError {
    /// Malformed exporter or transport configuration.
    Config(ConfigError),
    /// The trace exporter's transport refused the configuration.
    TraceExporter,
    /// The metric exporter's transport refused the configuration.
    MetricExporter,
    /// The log exporter's transport refused the configuration.
    LogExporter,
    /// The batching stages need an ambient async runtime to flush on.
    NoRuntime,
    /// A global observation sink was already installed in this process.
    AlreadyInitialized,
}

/// Relies on opentelemetry_sdk::Resource::new and opentelemetry::KeyValue:
/// pairs the descriptor's two identity attributes with the standard
/// `service.name` and `host.name` semantic-convention keys.
#[verifier::external_body]
fn otel_resource(descriptor: &ResourceDescriptor) -> Resource {
    Resource::new(vec![
        opentelemetry::KeyValue::new(
            opentelemetry_semantic_conventions::resource::SERVICE_NAME,
            descriptor.service_name.clone(),
        ),
        opentelemetry::KeyValue::new(
            opentelemetry_semantic_conventions::resource::HOST_NAME,
            descriptor.host_name.clone(),
        ),
    ])
}

/// Relies on opentelemetry_otlp::SpanExporter's builder over HTTP:
/// `with_endpoint`, `with_headers`, `with_protocol(HttpJson)` and `build`,
/// which fails when the configured endpoint is not a well-formed URI
/// (`OTEL_EXPORTER_OTLP_*` environment variables, when set, take
/// precedence over the configured endpoint and headers).
#[verifier::external_body]
fn build_span_exporter(cfg: &ExporterConfig) -> Option<SpanExporter> {
    let mut headers = std::collections::HashMap::new();
    headers.insert(cfg.header_name.clone(), cfg.header_value.clone());
    SpanExporter::builder()
        .with_http()
        .with_endpoint(cfg.endpoint.clone())
        .with_headers(headers)
        .with_protocol(Protocol::HttpJson)
        .build()
        .ok()
}

/// Relies on opentelemetry_otlp::MetricExporter's builder over HTTP, as the
/// span exporter's wrapper does.
#[verifier::external_body]
fn build_metric_exporter(cfg: &ExporterConfig) -> Option<MetricExporter> {
    let mut headers = std::collections::HashMap::new();
    headers.insert(cfg.header_name.clone(), cfg.header_value.clone());
    MetricExporter::builder()
        .with_http()
        .with_endpoint(cfg.endpoint.clone())
        .with_headers(headers)
        .with_protocol(Protocol::HttpJson)
        .build()
        .ok()
}

/// Relies on opentelemetry_otlp::LogExporter's builder over HTTP, as the
/// span exporter's wrapper does.
#[verifier::external_body]
fn build_log_exporter(cfg: &ExporterConfig) -> Option<LogExporter> {
    let mut headers = std::collections::HashMap::new();
    headers.insert(cfg.header_name.clone(), cfg.header_value.clone());
    LogExporter::builder()
        .with_http()
        .with_endpoint(cfg.endpoint.clone())
        .with_headers(headers)
        .with_protocol(Protocol::HttpJson)
        .build()
        .ok()
}

/// Relies on opentelemetry_sdk::trace::TracerProvider's builder with
/// `with_resource` and `with_batch_exporter` on the Tokio runtime. The
/// batching stage spawns its background flush task on the ambient Tokio
/// runtime, so the build is refused (None) when none is running.
#[verifier::external_body]
fn build_tracer_provider(exporter: SpanExporter, resource: Resource) -> Option<SdkTracerProvider> {
    if tokio::runtime::Handle::try_current().is_err() {
        return None;
    }
    Some(
        SdkTracerProvider::builder()
            .with_resource(resource)
            .with_batch_exporter(exporter, opentelemetry_sdk::runtime::Tokio)
            .build(),
    )
}

/// Relies on opentelemetry_sdk::metrics::PeriodicReader and
/// SdkMeterProvider's builder: periodic background flushing on the Tokio
/// runtime, refused (None) when no runtime is running.
#[verifier::external_body]
fn build_meter_provider(exporter: MetricExporter, resource: Resource) -> Option<SdkMeterProvider> {
    if tokio::runtime::Handle::try_current().is_err() {
        return None;
    }
    let reader = opentelemetry_sdk::metrics::PeriodicReader::builder(
        exporter,
        opentelemetry_sdk::runtime::Tokio,
    ).build();
    Some(SdkMeterProvider::builder().with_reader(reader).with_resource(resource).build())
}

/// Relies on opentelemetry_sdk::logs::LoggerProvider's builder with
/// `with_resource` and `with_batch_exporter` on the Tokio runtime, refused
/// (None) when no runtime is running.
#[verifier::external_body]
fn build_logger_provider(exporter: LogExporter, resource: Resource) -> Option<LoggerProvider> {
    if tokio::runtime::Handle::try_current().is_err() {
        return None;
    }
    Some(
        LoggerProvider::builder()
            .with_resource(resource)
            .with_batch_exporter(exporter, opentelemetry_sdk::runtime::Tokio)
            .build(),
    )
}

/// Relies on opentelemetry::global::set_tracer_provider: stores a handle to
/// the provider in the process-wide ambient slot that instrumentation not
/// explicitly handed a provider reads.
#[verifier::external_body]
fn publish_global_tracer_provider(provider: &SdkTracerProvider) {
    opentelemetry::global::set_tracer_provider(provider.clone());
}

/// Whether tracing_subscriber's EnvFilter directive parser accepts the
/// directive. The parser is a deterministic function of the directive
/// characters alone.
pub uninterp spec fn envfilter_accepts(directive: Seq<char>) -> bool;

/// Relies on tracing_subscriber::EnvFilter's directive parser: acceptance
/// depends on the directive alone, and the plain severity word `info` is a
/// valid directive. The parser is consulted on ASCII directives only: on
/// some directives that begin with a multi-byte whitespace character it
/// slices the untrimmed string at a trimmed byte index and panics.
#[verifier::external_body]
fn directive_is_accepted(directive: &str) -> (r: bool)
    requires
        is_ascii(directive),
    ensures
        r == envfilter_accepts(directive@),
        directive@ == "info"@ ==> r,
{
    EnvFilter::builder().parse(directive).is_ok()
}

/// The severity directive the filter layer is built from: the
/// environment's directive where one is present, ASCII, and accepted by
/// the parser, the `info` default otherwise.
pub open spec fn effective_directive(severity_env: Option<Seq<char>>) -> Seq<char> {
    match severity_env {
        Option::Some(s) => if is_ascii_chars(s) && envfilter_accepts(s) {
            s
        } else {
            "info"@
        },
        Option::None => "info"@,
    }
}

/// The fixed fallback directive: `info`, ASCII, and accepted by the
/// parser.
fn info_directive() -> (r: &'static str)
    ensures
        r@ == "info"@,
        is_ascii(r),
        envfilter_accepts(r@),
{
    let lit = "info";
    proof {
        reveal_strlit("info");
        assert(is_ascii(lit)) by {
            assert forall|i: int| 0 <= i < lit@.len() implies '\0' <= #[trigger] lit@[i]
                <= '\u{7f}' by {
                if i == 0 {
                    assert(lit@[0] == 'i');
                } else if i == 1 {
                    assert(lit@[1] == 'n');
                } else if i == 2 {
                    assert(lit@[2] == 'f');
                } else {
                    assert(lit@[3] == 'o');
                }
            }
        }
    }
    let ok = directive_is_accepted(lit);
    proof {
        assert(ok);
    }
    lit
}

/// Selects the severity directive from the environment-provided value:
/// exactly [`effective_directive`], and always an ASCII directive the
/// parser accepts.
pub fn severity_directive<'a>(severity_env: Option<&'a str>) -> (r: &'a str)
    ensures
        r@ == effective_directive(
            match severity_env {
                Option::Some(s) => Option::Some(s@),
                Option::None => Option::None,
            },
        ),
        envfilter_accepts(r@),
        is_ascii(r),
{
    match severity_env {
        Some(s) => {
            if s.is_ascii() && directive_is_accepted(s) {
                s
            } else {
                info_directive()
            }
        },
        None => info_directive(),
    }
}

/// Relies on tracing_subscriber's EnvFilter parser (on an ASCII directive
/// it accepts, so the re-parse here returns without panicking),
/// its registry, fmt layer and SubscriberInitExt::try_init,
/// tracing_opentelemetry's OpenTelemetryLayer (with recorded errors
/// promoted to span status and exception fields) and MetricsLayer, and
/// opentelemetry_appender_tracing's OpenTelemetryTracingBridge: installs
/// the five layers as the process's single global sink, in the order
/// console formatter, severity filter, trace bridge, metrics bridge, log
/// bridge. try_init fails if a global sink is already installed, so at
/// most one install ever succeeds in one process.
#[verifier::external_body]
fn install_subscriber_chain(
    filter_directive: &str,
    tracer_provider: &SdkTracerProvider,
    service_name: &str,
    meter_provider: SdkMeterProvider,
    logger_provider: &LoggerProvider,
) -> bool
    requires
        is_ascii(filter_directive),
        envfilter_accepts(filter_directive@),
{
    let filter = match EnvFilter::builder().parse(filter_directive) {
        Ok(f) => f,
        Err(_) => return false,
    };
    let tracer = tracer_provider.tracer(service_name.to_string());
    let fmt_layer = tracing_subscriber::fmt::layer().with_file(true).with_line_number(true);
    let trace_layer = tracing_opentelemetry::OpenTelemetryLayer::new(tracer)
        .with_error_records_to_exceptions(true).with_error_fields_to_exceptions(true)
        .with_error_events_to_status(true).with_error_events_to_exceptions(true)
        .with_location(true);
    let metrics_layer = tracing_opentelemetry::MetricsLayer::new(meter_provider);
    let logs_layer = OpenTelemetryTracingBridge::new(logger_provider);
    tracing_subscriber::registry().with(fmt_layer).with(filter).with(trace_layer)
        .with(metrics_layer).with(logs_layer).try_init().is_ok()
}

/// Initializes the whole telemetry stack, all-or-nothing: plans the three
/// exporter configurations and the resource identity, builds each exporter
/// and its batching provider in sequence, installs the subscriber chain as
/// the single global sink, and only then publishes the trace provider into
/// the process-wide ambient slot — so the slot is written at most once per
/// process, and never by a failed initialization.
///
/// The severity filter is built from exactly the directive that
/// [`severity_directive`] selects from the environment-provided value.
///
/// Fails exactly on a malformed base endpoint with a configuration error;
/// otherwise it fails only where a transport, the runtime, or an already
/// installed global sink refuses assembly, and succeeds with all three
/// providers live.
pub fn init_opentelemetry(
    endpoint: &str,
    license_key: &str,
    service_name: &str,
    host_name: &str,
    severity_env: Option<&str>,
) -> (r: Result<(), InitError>)
    ensures
        r == Err::<(), InitError>(InitError::Config(ConfigError::MalformedEndpoint))
            <==> !valid_endpoint(endpoint@),
{
    let plan: PipelinePlan = match plan_pipeline(endpoint, license_key, service_name, host_name) {
        Ok(p) => p,
        Err(e) => {
            return Err(InitError::Config(e));
        },
    };
    let span_exporter = match build_span_exporter(&plan.trace_exporter) {
        Some(x) => x,
        None => {
            return Err(InitError::TraceExporter);
        },
    };
    let tracer_provider = match build_tracer_provider(span_exporter, otel_resource(&plan.resource)) {
        Some(p) => p,
        None => {
            return Err(InitError::NoRuntime);
        },
    };
    let metric_exporter = match build_metric_exporter(&plan.metric_exporter) {
        Some(x) => x,
        None => {
            return Err(InitError::MetricExporter);
        },
    };
    let meter_provider = match build_meter_provider(metric_exporter, otel_resource(&plan.resource)) {
        Some(p) => p,
        None => {
            return Err(InitError::NoRuntime);
        },
    };
    let log_exporter = match build_log_exporter(&plan.log_exporter) {
        Some(x) => x,
        None => {
            return Err(InitError::LogExporter);
        },
    };
    let logger_provider = match build_logger_provider(log_exporter, otel_resource(&plan.resource)) {
        Some(p) => p,
        None => {
            return Err(InitError::NoRuntime);
        },
    };
    let filter_directive = severity_directive(severity_env);
    if !install_subscriber_chain(
        filter_directive,
        &tracer_provider,
        service_name,
        meter_provider,
        &logger_provider,
    ) {
        return Err(InitError::AlreadyInitialized);
    }
    publish_global_tracer_provider(&tracer_provider);
    Ok(())
}

} // verus!
