//! The six logging operations and their branch-and-log helpers.
//!
//! Every operation classifies a fallible value.  A success is passed through
//! untouched — nothing is logged and no message is built.  A failure has its
//! message evaluated and joined with the residual's rendering as
//! `"<message>: <residual>"`, that text is recorded in the sink at the
//! operation's severity, and the operation's policy decides what comes back:
//! the failure itself, a default payload, or the text for the caller to
//! abort with.

use vstd::prelude::*;
use vstd::string::StringExecFns;

use crate::fallible::DebugText;
use crate::fallible::Fallible;
use crate::fallible::FallibleCase;
use crate::fallible::is_success;
use crate::fallible::output_of;
use crate::fallible::residual_of;
use crate::sink::Severity;
use crate::sink::Sink;

verus! {

/// The text of the log line for a failure: the message, a separating
/// `": "`, and the residual's rendering.
pub open spec fn failure_text(msg: Seq<char>, residual: Seq<char>) -> Seq<char> {
    msg + ": "@ + residual
}

/// Join a message and a residual's rendering into one log line.
pub fn render_failure<R: DebugText>(msg: &str, residual: &R) -> (r: String)
    ensures
        r@ == failure_text(msg@, residual.debug_text()),
{
    let mut s = msg.to_owned();
    s.append(": ");
    let d = residual.render();
    s.append(d.as_str());
    proof {
        assert(s@ =~= failure_text(msg@, residual.debug_text()));
    }
    s
}

/// A payload type with a designated default value, substituted for a
/// failure by the default-substituting operations.
///
/// The implementations below designate the value that the standard library
/// documents as the type's default: zero, `false`, the absent option.
pub trait DefaultValue: Sized {
    /// The designated default value.
    spec fn spec_default() -> Self;

    /// Produce the designated default value.
    fn default_value() -> (r: Self)
        ensures
            r == Self::spec_default(),
    ;
}

impl DefaultValue for bool {
    open spec fn spec_default() -> bool {
        false
    }

    fn default_value() -> (r: bool) {
        false
    }
}

impl DefaultValue for u32 {
    open spec fn spec_default() -> u32 {
        0
    }

    fn default_value() -> (r: u32) {
        0
    }
}

impl DefaultValue for u64 {
    open spec fn spec_default() -> u64 {
        0
    }

    fn default_value() -> (r: u64) {
        0
    }
}

impl DefaultValue for usize {
    open spec fn spec_default() -> usize {
        0
    }

    fn default_value() -> (r: usize) {
        0
    }
}

impl DefaultValue for i32 {
    open spec fn spec_default() -> i32 {
        0
    }

    fn default_value() -> (r: i32) {
        0
    }
}

impl DefaultValue for i64 {
    open spec fn spec_default() -> i64 {
        0
    }

    fn default_value() -> (r: i64) {
        0
    }
}

impl<U> DefaultValue for Option<U> {
    open spec fn spec_default() -> Option<U> {
        None
    }

    fn default_value() -> (r: Option<U>) {
        None
    }
}

/// Branch and log, handing the value back whole.
///
/// A success comes back untouched with nothing recorded.  A failure comes
/// back untouched as well, after its message callback has been evaluated
/// and one line has been recorded at `severity`.
pub fn inspect_or_and<F: Fallible, M: FnOnce() -> String>(
    t: F,
    f: M,
    severity: Severity,
    sink: &mut Sink,
) -> (r: F)
    requires
        call_requires(f, ()),
    ensures
        r == t,
        is_success(t) ==> final(sink)@ == old(sink)@,
        !is_success(t) ==> exists|m: String|
            call_ensures(f, (), m) && final(sink)@ == old(sink)@.push(
                (severity, failure_text(m@, residual_of(t).debug_text())),
            ),
{
    let ghost t0 = t;
    let ghost s0 = sink@;
    match t.classify() {
        FallibleCase::Success(v) => {
            let r = F::from_output(v);
            proof {
                F::lemma_case_determines(r, t0);
            }
            r
        },
        FallibleCase::Failure(e) => {
            let m = f();
            let text = render_failure(m.as_str(), &e);
            proof {
                assert(residual_of(t0) == e);
                assert(text@ == failure_text(m@, residual_of(t0).debug_text()));
            }
            sink.emit(severity, text);
            proof {
                assert(call_ensures(f, (), m) && sink@ == s0.push(
                    (severity, failure_text(m@, residual_of(t0).debug_text())),
                ));
            }
            let r = F::from_residual(e);
            proof {
                F::lemma_case_determines(r, t0);
            }
            r
        },
    }
}

/// Branch and log, substituting a default payload for a failure.
///
/// A success gives up its payload with nothing recorded.  For a failure,
/// the message callback is evaluated, one line is recorded at `severity`,
/// and the payload type's designated default comes back instead.
pub fn unwrap_or_default_and<F, M>(t: F, f: M, severity: Severity, sink: &mut Sink) -> (r:
    F::Output) where F: Fallible, F::Output: DefaultValue, M: FnOnce() -> String
    requires
        call_requires(f, ()),
    ensures
        is_success(t) ==> r == output_of(t) && final(sink)@ == old(sink)@,
        !is_success(t) ==> r == F::Output::spec_default() && exists|m: String|
            call_ensures(f, (), m) && final(sink)@ == old(sink)@.push(
                (severity, failure_text(m@, residual_of(t).debug_text())),
            ),
{
    let ghost t0 = t;
    let ghost s0 = sink@;
    match t.classify() {
        FallibleCase::Success(v) => v,
        FallibleCase::Failure(e) => {
            let m = f();
            let text = render_failure(m.as_str(), &e);
            proof {
                assert(residual_of(t0) == e);
            }
            sink.emit(severity, text);
            proof {
                assert(call_ensures(f, (), m) && sink@ == s0.push(
                    (severity, failure_text(m@, residual_of(t0).debug_text())),
                ));
            }
            F::Output::default_value()
        },
    }
}

/// Branch and log, escalating a failure.
///
/// A success gives up its payload with nothing recorded.  For a failure,
/// the message callback is evaluated, one line is recorded at the error
/// severity, and the same text comes back as the error value — the caller
/// is expected to abort with it as the diagnostic.
pub fn unwrap_or_and<F: Fallible, M: FnOnce() -> String>(t: F, f: M, sink: &mut Sink) -> (r: Result<
    F::Output,
    String,
>)
    requires
        call_requires(f, ()),
    ensures
        is_success(t) ==> (r matches Ok(v) && v == output_of(t) && final(sink)@ == old(sink)@),
        !is_success(t) ==> (r matches Err(text) && exists|m: String|
            call_ensures(f, (), m) && text@ == failure_text(m@, residual_of(t).debug_text())
                && final(sink)@ == old(sink)@.push((Severity::Error, text@))),
{
    let ghost t0 = t;
    let ghost s0 = sink@;
    match t.classify() {
        FallibleCase::Success(v) => Ok(v),
        FallibleCase::Failure(e) => {
            let m = f();
            let text = render_failure(m.as_str(), &e);
            let dup = text.as_str().to_owned();
            proof {
                assert(residual_of(t0) == e);
            }
            sink.emit(Severity::Error, text);
            proof {
                assert(call_ensures(f, (), m) && dup@ == failure_text(
                    m@,
                    residual_of(t0).debug_text(),
                ) && sink@ == s0.push((Severity::Error, dup@)));
            }
            Err(dup)
        },
    }
}

} // verus!
