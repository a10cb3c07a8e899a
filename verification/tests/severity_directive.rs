use rust_axum_newrelic_example::otel::severity_directive;

#[test]
fn a_valid_environment_directive_is_used_as_given() {
    assert_eq!(severity_directive(Some("debug")), "debug");
    assert_eq!(severity_directive(Some("warn")), "warn");
    assert_eq!(severity_directive(Some("info,tower_http=debug")), "info,tower_http=debug");
}

#[test]
fn an_absent_directive_defaults_to_info() {
    assert_eq!(severity_directive(None), "info");
}

#[test]
fn an_invalid_directive_defaults_to_info() {
    assert_eq!(severity_directive(Some("!!not-a-directive!!")), "info");
    assert_eq!(severity_directive(Some("==")), "info");
}

#[test]
fn a_non_ascii_directive_defaults_to_info_without_reaching_the_parser() {
    // A directive opening with a multi-byte whitespace character would make
    // the parser slice at a non-boundary byte index and panic; the library
    // never hands it such a directive.
    assert_eq!(severity_directive(Some("\u{00A0}a=b")), "info");
    assert_eq!(severity_directive(Some("d\u{00E9}bug")), "info");
}
