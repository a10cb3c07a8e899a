//! Spans and log records as data. A recorder holds every span opened so
//! far, every log record emitted so far, and the stack of currently open
//! spans; parent/child relations come from call nesting alone, and a log
//! record is attributed to whichever span is open when it is emitted.

use vstd::prelude::*;

verus! {

/// Severity of a log record, fixed per call site.
#[derive(Clone, Copy, PartialEq, Eq, Structural, Debug)]
pub enum Severity {
    Info,
    Error,
}

/// One span: a named, timed unit of work. Its parent is the span that was
/// open when it was opened; `caller` carries the identity of the calling
/// function where the call site declares one; `closed` says whether its
/// owning call frame has exited.
#[derive(Debug, Clone)]
pub struct SpanRecord {
    pub name: String,
    pub parent: Option<usize>,
    pub caller: Option<String>,
    pub closed: bool,
}

/// One structured log record, attributed to the span that was open when it
/// was emitted. `call_fn` is the one structured field this service's call
/// sites attach: the identity of the calling function, where the emitting
/// site declares it.
#[derive(Debug, Clone)]
pub struct LogRecord {
    pub severity: Severity,
    pub message: String,
    pub span: usize,
    pub call_fn: Option<String>,
}

/// The view of an optional owned string as an optional character sequence.
pub open spec fn opt_view(o: Option<String>) -> Option<Seq<char>> {
    match o {
        Option::Some(s) => Option::Some(s@),
        Option::None => Option::None,
    }
}

/// A span record matches the given name, parent, caller and closed state.
pub open spec fn is_span(
    r: SpanRecord,
    name: Seq<char>,
    parent: Option<usize>,
    caller: Option<Seq<char>>,
    closed: bool,
) -> bool {
    &&& r.name@ == name
    &&& r.parent == parent
    &&& opt_view(r.caller) == caller
    &&& r.closed == closed
}

/// A log record matches the given severity, message, enclosing span and
/// `call_fn` field.
pub open spec fn is_log(
    l: LogRecord,
    severity: Severity,
    message: Seq<char>,
    span: usize,
    call_fn: Option<Seq<char>>,
) -> bool {
    &&& l.severity == severity
    &&& l.message@ == message
    &&& l.span == span
    &&& opt_view(l.call_fn) == call_fn
}

/// The recording sink: all spans ever opened (in opening order), all log
/// records ever emitted (in emission order), and the indices of the spans
/// that are currently open, innermost last.
#[derive(Debug)]
pub struct Recorder {
    pub spans: Vec<SpanRecord>,
    pub logs: Vec<LogRecord>,
    pub stack: Vec<usize>,
}

impl Recorder {
    /// Every stack entry and every log attribution points at a recorded
    /// span, and a span's parent was opened before it (so the parent
    /// relation is acyclic).
    pub open spec fn wf(self) -> bool {
        &&& forall|i: int|
            0 <= i < self.stack@.len() ==> (#[trigger] self.stack@[i]) < self.spans@.len()
        &&& forall|i: int|
            0 <= i < self.spans@.len() ==> ((#[trigger] self.spans@[i]).parent matches Some(p)
                ==> p < i)
        &&& forall|i: int|
            0 <= i < self.logs@.len() ==> (#[trigger] self.logs@[i]).span < self.spans@.len()
    }

    /// The innermost currently open span, if any.
    pub open spec fn current_span(self) -> Option<usize> {
        if self.stack@.len() == 0 {
            Option::None
        } else {
            Option::Some(self.stack@.last())
        }
    }

    /// A fresh recorder with no spans, no logs and nothing open.
    pub fn new() -> (r: Recorder)
        ensures
            r.wf(),
            r.spans@ == Seq::<SpanRecord>::empty(),
            r.logs@ == Seq::<LogRecord>::empty(),
            r.stack@ == Seq::<usize>::empty(),
    {
        Recorder { spans: Vec::new(), logs: Vec::new(), stack: Vec::new() }
    }

    /// Opens a span under the currently open span and makes it current.
    /// The new span is open, carries the given name and caller identity,
    /// and everything already recorded is untouched.
    pub fn open_span(&mut self, name: &str, caller: Option<&str>) -> (idx: usize)
        requires
            old(self).wf(),
        ensures
            final(self).wf(),
            idx == old(self).spans@.len(),
            final(self).spans@.len() == old(self).spans@.len() + 1,
            final(self).spans@.subrange(0, old(self).spans@.len() as int) == old(self).spans@,
            is_span(
                final(self).spans@.last(),
                name@,
                old(self).current_span(),
                match caller {
                    Option::Some(c) => Option::Some(c@),
                    Option::None => Option::None,
                },
                false,
            ),
            final(self).logs@ == old(self).logs@,
            final(self).stack@ == old(self).stack@.push(idx),
    {
        let idx = self.spans.len();
        let parent = if self.stack.len() == 0 {
            None
        } else {
            Some(self.stack[self.stack.len() - 1])
        };
        let caller_owned = match caller {
            Some(c) => Some(c.to_owned()),
            None => None,
        };
        self.spans.push(
            SpanRecord { name: name.to_owned(), parent, caller: caller_owned, closed: false },
        );
        self.stack.push(idx);
        proof {
            assert(self.spans@.subrange(0, old(self).spans@.len() as int) =~= old(self).spans@);
        }
        idx
    }

    /// Closes the innermost open span, which must be the one the caller
    /// opened: its record is marked closed, the previous current span is
    /// restored, and every other record is untouched.
    pub fn close_span(&mut self, idx: usize)
        requires
            old(self).wf(),
            old(self).stack@.len() > 0,
            old(self).stack@.last() == idx,
        ensures
            final(self).wf(),
            final(self).stack@ == old(self).stack@.drop_last(),
            final(self).logs@ == old(self).logs@,
            final(self).spans@.len() == old(self).spans@.len(),
            forall|i: int|
                0 <= i < old(self).spans@.len() && i != idx ==> final(self).spans@[i] == old(
                    self,
                ).spans@[i],
            final(self).spans@[idx as int].name == old(self).spans@[idx as int].name,
            final(self).spans@[idx as int].parent == old(self).spans@[idx as int].parent,
            final(self).spans@[idx as int].caller == old(self).spans@[idx as int].caller,
            final(self).spans@[idx as int].closed == true,
    {
        self.stack.pop();
        let mut rec = self.spans.remove(idx);
        rec.closed = true;
        self.spans.insert(idx, rec);
        proof {
            assert forall|i: int| 0 <= i < old(self).spans@.len() && i != idx implies self.spans@[i]
                == old(self).spans@[i] by {
                if i < idx {
                    assert(self.spans@[i] == old(self).spans@.remove(idx as int)[i]);
                } else {
                    assert(self.spans@[i] == old(self).spans@.remove(idx as int)[i - 1]);
                }
            }
        }
    }

    /// Emits one log record at the given severity, attributed to the
    /// innermost open span, carrying the calling function's identity where
    /// the call site declares one; nothing else changes.
    pub fn emit_log(&mut self, severity: Severity, message: &str, call_fn: Option<&str>)
        requires
            old(self).wf(),
            old(self).stack@.len() > 0,
        ensures
            final(self).wf(),
            final(self).spans@ == old(self).spans@,
            final(self).stack@ == old(self).stack@,
            final(self).logs@.len() == old(self).logs@.len() + 1,
            final(self).logs@.subrange(0, old(self).logs@.len() as int) == old(self).logs@,
            is_log(
                final(self).logs@.last(),
                severity,
                message@,
                old(self).stack@.last(),
                match call_fn {
                    Option::Some(c) => Option::Some(c@),
                    Option::None => Option::None,
                },
            ),
    {
        let span = self.stack[self.stack.len() - 1];
        let call_fn_owned = match call_fn {
            Some(c) => Some(c.to_owned()),
            None => None,
        };
        self.logs.push(
            LogRecord { severity, message: message.to_owned(), span, call_fn: call_fn_owned },
        );
        proof {
            assert(self.logs@.subrange(0, old(self).logs@.len() as int) =~= old(self).logs@);
        }
    }
}

} // verus!
