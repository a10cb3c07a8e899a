use rust_axum_newrelic_example::otel::InitError;
use rust_axum_newrelic_example::otel::init_opentelemetry;

#[test]
fn init_succeeds_once_and_rejects_a_second_run() {
    let rt = tokio::runtime::Runtime::new().unwrap();
    rt.block_on(async {
        // Valid configuration: the whole stack assembles; reaching the
        // collector is deferred to flush time and never required here.
        let first = init_opentelemetry(
            "http://localhost:4318",
            "0123456789",
            "axum-newrelic-example",
            "localhost",
            None,
        );
        assert_eq!(first, Ok(()));

        // A second initialization in the same process must not install a
        // second competing sink: it is rejected.
        let second = init_opentelemetry(
            "http://localhost:4318",
            "0123456789",
            "axum-newrelic-example",
            "localhost",
            None,
        );
        assert_eq!(second, Err(InitError::AlreadyInitialized));
    });
}
