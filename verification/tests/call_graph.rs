use rust_axum_newrelic_example::handler::handler;
use rust_axum_newrelic_example::handler::sub1;
use rust_axum_newrelic_example::handler::sub2;
use rust_axum_newrelic_example::recorder::Recorder;
use rust_axum_newrelic_example::recorder::Severity;

#[test]
fn handler_produces_the_expected_span_tree() {
    let mut r = Recorder::new();
    let root = r.open_span("request", None);
    let body = handler(&mut r);
    r.close_span(root);

    assert_eq!(body, "<h1>Hello, World!</h1>");
    assert_eq!(r.spans.len(), 5);

    assert_eq!(r.spans[0].name, "request");
    assert_eq!(r.spans[0].parent, None);

    assert_eq!(r.spans[1].name, "handler");
    assert_eq!(r.spans[1].parent, Some(0));
    assert_eq!(r.spans[1].caller, None);

    assert_eq!(r.spans[2].name, "sub1");
    assert_eq!(r.spans[2].parent, Some(1));
    assert_eq!(r.spans[2].caller.as_deref(), Some("handler"));

    // sub2 appears twice, under distinct parents, each naming its caller.
    assert_eq!(r.spans[3].name, "sub2");
    assert_eq!(r.spans[3].parent, Some(2));
    assert_eq!(r.spans[3].caller.as_deref(), Some("sub1"));

    assert_eq!(r.spans[4].name, "sub2");
    assert_eq!(r.spans[4].parent, Some(1));
    assert_eq!(r.spans[4].caller.as_deref(), Some("handler"));

    // Every span opened was closed, and nothing is left open.
    for s in &r.spans {
        assert!(s.closed);
    }
    assert_eq!(r.stack.len(), 0);
}

#[test]
fn each_call_emits_exactly_one_record_at_its_fixed_severity() {
    let mut r = Recorder::new();
    let root = r.open_span("request", None);
    let _ = handler(&mut r);
    r.close_span(root);

    assert_eq!(r.logs.len(), 4);
    assert_eq!(r.logs[0].severity, Severity::Info);
    assert_eq!(r.logs[0].message, "request received");
    assert_eq!(r.logs[0].span, 1);
    assert_eq!(r.logs[0].call_fn, None);
    assert_eq!(r.logs[1].severity, Severity::Info);
    assert_eq!(r.logs[1].message, "sub1");
    assert_eq!(r.logs[1].span, 2);
    assert_eq!(r.logs[1].call_fn.as_deref(), Some("handler"));
    assert_eq!(r.logs[2].severity, Severity::Error);
    assert_eq!(r.logs[2].message, "sub2");
    assert_eq!(r.logs[2].span, 3);
    assert_eq!(r.logs[2].call_fn, None);
    assert_eq!(r.logs[3].severity, Severity::Error);
    assert_eq!(r.logs[3].message, "sub2");
    assert_eq!(r.logs[3].span, 4);
    assert_eq!(r.logs[3].call_fn, None);

    // The same severities hold on every execution, not only the first.
    let root2 = r.open_span("request", None);
    let _ = handler(&mut r);
    r.close_span(root2);
    assert_eq!(r.logs.len(), 8);
    assert_eq!(r.logs[4].severity, Severity::Info);
    assert_eq!(r.logs[5].severity, Severity::Info);
    assert_eq!(r.logs[6].severity, Severity::Error);
    assert_eq!(r.logs[7].severity, Severity::Error);
}

#[test]
fn sub1_opens_its_own_span_and_a_sub2_child() {
    let mut r = Recorder::new();
    sub1(&mut r, "handler");
    assert_eq!(r.spans.len(), 2);
    assert_eq!(r.spans[0].name, "sub1");
    assert_eq!(r.spans[0].parent, None);
    assert_eq!(r.spans[0].caller.as_deref(), Some("handler"));
    assert_eq!(r.spans[1].name, "sub2");
    assert_eq!(r.spans[1].parent, Some(0));
    assert_eq!(r.spans[1].caller.as_deref(), Some("sub1"));
    assert_eq!(r.logs.len(), 2);
    assert_eq!(r.logs[0].severity, Severity::Info);
    assert_eq!(r.logs[0].call_fn.as_deref(), Some("handler"));
    assert_eq!(r.logs[1].severity, Severity::Error);
    assert_eq!(r.logs[1].call_fn, None);
    assert!(r.spans[0].closed && r.spans[1].closed);
}

#[test]
fn sub2_emits_one_error_record_every_time() {
    let mut r = Recorder::new();
    sub2(&mut r, "handler");
    sub2(&mut r, "handler");
    assert_eq!(r.spans.len(), 2);
    assert_eq!(r.logs.len(), 2);
    assert_eq!(r.logs[0].severity, Severity::Error);
    assert_eq!(r.logs[1].severity, Severity::Error);
    assert_eq!(r.logs[0].message, "sub2");
    assert_eq!(r.logs[0].call_fn, None);
    assert_eq!(r.spans[0].caller.as_deref(), Some("handler"));
}
