use rust_axum_newrelic_example::otel::init_opentelemetry;

#[test]
fn an_invalid_severity_directive_falls_back_to_info_and_init_succeeds() {
    let rt = tokio::runtime::Runtime::new().unwrap();
    rt.block_on(async {
        let r = init_opentelemetry(
            "http://localhost:4318",
            "0123456789",
            "axum-newrelic-example",
            "localhost",
            Some("!!not-a-directive!!"),
        );
        assert_eq!(r, Ok(()));
    });
}
