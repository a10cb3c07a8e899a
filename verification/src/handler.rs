//! The instrumented call graph: the request handler and its nested helper
//! calls. Each call opens a child span scoped to its own execution, named
//! after the call and carrying its caller's identity, and emits exactly one
//! log record at the severity fixed for that call site. Span nesting
//! mirrors call nesting exactly, and every span opened is closed on exit.

use vstd::prelude::*;

use crate::recorder::Recorder;
use crate::recorder::Severity;
use crate::recorder::is_log;
use crate::recorder::is_span;

verus! {

/// The innermost helper: opens its own span under the current one, noting
/// which function called it, and emits exactly one error-severity record.
pub fn sub2(r: &mut Recorder, call_fn: &str)
    requires
        old(r).wf(),
    ensures
        final(r).wf(),
        final(r).stack@ == old(r).stack@,
        final(r).spans@.len() == old(r).spans@.len() + 1,
        final(r).spans@.subrange(0, old(r).spans@.len() as int) == old(r).spans@,
        is_span(
            final(r).spans@.last(),
            "sub2"@,
            old(r).current_span(),
            Option::Some(call_fn@),
            true,
        ),
        final(r).logs@.len() == old(r).logs@.len() + 1,
        final(r).logs@.subrange(0, old(r).logs@.len() as int) == old(r).logs@,
        is_log(
            final(r).logs@.last(),
            Severity::Error,
            "sub2"@,
            old(r).spans@.len() as usize,
            Option::None,
        ),
{
    let idx = r.open_span("sub2", Some(call_fn));
    r.emit_log(Severity::Error, "sub2", None);
    r.close_span(idx);
    proof {
        assert(r.stack@ =~= old(r).stack@);
        assert(r.spans@.subrange(0, old(r).spans@.len() as int) =~= old(r).spans@);
    }
}

/// The middle helper: opens its own span, emits exactly one informational
/// record, and calls [`sub2`], whose span becomes its child.
pub fn sub1(r: &mut Recorder, call_fn: &str)
    requires
        old(r).wf(),
    ensures
        final(r).wf(),
        final(r).stack@ == old(r).stack@,
        final(r).spans@.len() == old(r).spans@.len() + 2,
        final(r).spans@.subrange(0, old(r).spans@.len() as int) == old(r).spans@,
        is_span(
            final(r).spans@[old(r).spans@.len() as int],
            "sub1"@,
            old(r).current_span(),
            Option::Some(call_fn@),
            true,
        ),
        is_span(
            final(r).spans@[old(r).spans@.len() as int + 1],
            "sub2"@,
            Option::Some(old(r).spans@.len() as usize),
            Option::Some("sub1"@),
            true,
        ),
        final(r).logs@.len() == old(r).logs@.len() + 2,
        final(r).logs@.subrange(0, old(r).logs@.len() as int) == old(r).logs@,
        is_log(
            final(r).logs@[old(r).logs@.len() as int],
            Severity::Info,
            "sub1"@,
            old(r).spans@.len() as usize,
            Option::Some(call_fn@),
        ),
        is_log(
            final(r).logs@[old(r).logs@.len() as int + 1],
            Severity::Error,
            "sub2"@,
            (old(r).spans@.len() + 1) as usize,
            Option::None,
        ),
{
    let idx = r.open_span("sub1", Some(call_fn));
    r.emit_log(Severity::Info, "sub1", Some(call_fn));
    sub2(r, "sub1");
    r.close_span(idx);
    proof {
        assert(r.stack@ =~= old(r).stack@);
        assert(r.spans@.subrange(0, old(r).spans@.len() as int) =~= old(r).spans@);
        assert(r.logs@.subrange(0, old(r).logs@.len() as int) =~= old(r).logs@);
    }
}

/// The request handler: under the span that is current on entry (the
/// per-request root span), it opens its own span, emits one informational
/// record, runs `sub1` (which itself runs `sub2`) and then `sub2` directly,
/// and returns the fixed response body.
///
/// The resulting span tree is exactly: the handler span is the parent of
/// one `sub1` span and one `sub2` span (the latter with caller identity
/// `handler`), and the `sub1` span is the parent of its own `sub2` span
/// (with caller identity `sub1`) — `sub2` appears twice, under distinct
/// parents. Exactly four log records are emitted, one per call, at the
/// severity fixed for each call site.
pub fn handler(r: &mut Recorder) -> (body: String)
    requires
        old(r).wf(),
    ensures
        body@ == "<h1>Hello, World!</h1>"@,
        final(r).wf(),
        final(r).stack@ == old(r).stack@,
        final(r).spans@.len() == old(r).spans@.len() + 4,
        final(r).spans@.subrange(0, old(r).spans@.len() as int) == old(r).spans@,
        is_span(
            final(r).spans@[old(r).spans@.len() as int],
            "handler"@,
            old(r).current_span(),
            Option::None,
            true,
        ),
        is_span(
            final(r).spans@[old(r).spans@.len() as int + 1],
            "sub1"@,
            Option::Some(old(r).spans@.len() as usize),
            Option::Some("handler"@),
            true,
        ),
        is_span(
            final(r).spans@[old(r).spans@.len() as int + 2],
            "sub2"@,
            Option::Some((old(r).spans@.len() + 1) as usize),
            Option::Some("sub1"@),
            true,
        ),
        is_span(
            final(r).spans@[old(r).spans@.len() as int + 3],
            "sub2"@,
            Option::Some(old(r).spans@.len() as usize),
            Option::Some("handler"@),
            true,
        ),
        final(r).logs@.len() == old(r).logs@.len() + 4,
        final(r).logs@.subrange(0, old(r).logs@.len() as int) == old(r).logs@,
        is_log(
            final(r).logs@[old(r).logs@.len() as int],
            Severity::Info,
            "request received"@,
            old(r).spans@.len() as usize,
            Option::None,
        ),
        is_log(
            final(r).logs@[old(r).logs@.len() as int + 1],
            Severity::Info,
            "sub1"@,
            (old(r).spans@.len() + 1) as usize,
            Option::Some("handler"@),
        ),
        is_log(
            final(r).logs@[old(r).logs@.len() as int + 2],
            Severity::Error,
            "sub2"@,
            (old(r).spans@.len() + 2) as usize,
            Option::None,
        ),
        is_log(
            final(r).logs@[old(r).logs@.len() as int + 3],
            Severity::Error,
            "sub2"@,
            (old(r).spans@.len() + 3) as usize,
            Option::None,
        ),
{
    let idx = r.open_span("handler", None);
    r.emit_log(Severity::Info, "request received", None);
    sub1(r, "handler");
    sub2(r, "handler");
    r.close_span(idx);
    proof {
        assert(r.stack@ =~= old(r).stack@);
        assert(r.spans@.subrange(0, old(r).spans@.len() as int) =~= old(r).spans@);
        assert(r.logs@.subrange(0, old(r).logs@.len() as int) =~= old(r).logs@);
    }
    "<h1>Hello, World!</h1>".to_owned()
}

} // verus!
