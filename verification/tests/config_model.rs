use rust_axum_newrelic_example::config::ConfigError;
use rust_axum_newrelic_example::config::Encoding;
use rust_axum_newrelic_example::config::ExporterConfig;
use rust_axum_newrelic_example::config::LayerKind;
use rust_axum_newrelic_example::config::ResourceDescriptor;
use rust_axum_newrelic_example::config::SignalKind;
use rust_axum_newrelic_example::config::endpoint_is_valid;
use rust_axum_newrelic_example::config::plan_pipeline;
use rust_axum_newrelic_example::config::signal_path;

#[test]
fn signal_paths_are_the_three_fixed_suffixes() {
    assert_eq!(signal_path(SignalKind::Trace), "/v1/traces");
    assert_eq!(signal_path(SignalKind::Metric), "/v1/metrics");
    assert_eq!(signal_path(SignalKind::Log), "/v1/logs");
}

#[test]
fn endpoint_validity_requires_an_http_scheme() {
    assert!(endpoint_is_valid("https://otlp.nr-data.net"));
    assert!(endpoint_is_valid("http://localhost:4318"));
    assert!(!endpoint_is_valid("otlp.nr-data.net"));
    assert!(!endpoint_is_valid("ftp://otlp.nr-data.net"));
    assert!(!endpoint_is_valid("http:/one-slash"));
    assert!(!endpoint_is_valid(""));
}

#[test]
fn exporter_config_appends_suffix_and_sets_api_key_header() {
    let cfg = ExporterConfig::build("https://otlp.nr-data.net", "0123456789", SignalKind::Trace)
        .unwrap();
    assert_eq!(cfg.endpoint, "https://otlp.nr-data.net/v1/traces");
    assert_eq!(cfg.header_name, "api-key");
    assert_eq!(cfg.header_value, "0123456789");
    assert_eq!(cfg.encoding, Encoding::JsonOverHttp);
    assert_eq!(cfg.kind, SignalKind::Trace);
}

#[test]
fn exporter_config_rejects_malformed_endpoint() {
    let r = ExporterConfig::build("otlp.nr-data.net", "0123456789", SignalKind::Log);
    assert_eq!(r.unwrap_err(), ConfigError::MalformedEndpoint);
}

#[test]
fn resource_descriptor_holds_both_names() {
    let r = ResourceDescriptor::build("axum-newrelic-example", "localhost");
    assert_eq!(r.service_name, "axum-newrelic-example");
    assert_eq!(r.host_name, "localhost");
}

#[test]
fn plan_succeeds_on_valid_input_with_one_config_per_signal() {
    let plan = plan_pipeline(
        "https://otlp.nr-data.net",
        "0123456789",
        "axum-newrelic-example",
        "localhost",
    )
    .unwrap();
    assert_eq!(plan.trace_exporter.kind, SignalKind::Trace);
    assert_eq!(plan.trace_exporter.endpoint, "https://otlp.nr-data.net/v1/traces");
    assert_eq!(plan.metric_exporter.kind, SignalKind::Metric);
    assert_eq!(plan.metric_exporter.endpoint, "https://otlp.nr-data.net/v1/metrics");
    assert_eq!(plan.log_exporter.kind, SignalKind::Log);
    assert_eq!(plan.log_exporter.endpoint, "https://otlp.nr-data.net/v1/logs");
    assert_eq!(plan.trace_exporter.header_name, "api-key");
    assert_eq!(plan.trace_exporter.header_value, "0123456789");
    assert_eq!(plan.metric_exporter.header_value, "0123456789");
    assert_eq!(plan.log_exporter.header_value, "0123456789");
    assert_eq!(plan.resource.service_name, "axum-newrelic-example");
    assert_eq!(plan.resource.host_name, "localhost");
}

#[test]
fn plan_preserves_the_subscriber_layer_order() {
    let plan = plan_pipeline("http://localhost:4318", "k", "svc", "host").unwrap();
    assert_eq!(
        plan.layers,
        vec![
            LayerKind::ConsoleFmt,
            LayerKind::SeverityFilter,
            LayerKind::TraceBridge,
            LayerKind::MetricsBridge,
            LayerKind::LogBridge,
        ]
    );
}

#[test]
fn plan_fails_on_malformed_endpoint() {
    let r = plan_pipeline("otlp.nr-data.net", "k", "svc", "host");
    assert_eq!(r.unwrap_err(), ConfigError::MalformedEndpoint);
}
