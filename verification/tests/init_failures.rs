use rust_axum_newrelic_example::config::ConfigError;
use rust_axum_newrelic_example::otel::InitError;
use rust_axum_newrelic_example::otel::init_opentelemetry;

#[test]
fn init_rejects_a_schemeless_endpoint() {
    let r = init_opentelemetry("otlp.nr-data.net", "0123456789", "svc", "host", None);
    assert_eq!(r, Err(InitError::Config(ConfigError::MalformedEndpoint)));
}

#[test]
fn init_rejects_an_empty_endpoint() {
    let r = init_opentelemetry("", "0123456789", "svc", "host", None);
    assert_eq!(r, Err(InitError::Config(ConfigError::MalformedEndpoint)));
}

#[test]
fn init_surfaces_a_transport_refused_endpoint() {
    // The scheme is present, so the plan is accepted, but the transport
    // cannot parse the URI: the trace exporter is the first to refuse it.
    let r = init_opentelemetry("http://bad host", "0123456789", "svc", "host", None);
    assert_eq!(r, Err(InitError::TraceExporter));
}

#[test]
fn init_without_an_async_runtime_is_refused_not_crashed() {
    let r = init_opentelemetry("http://localhost:4318", "0123456789", "svc", "host", None);
    assert_eq!(r, Err(InitError::NoRuntime));
}
