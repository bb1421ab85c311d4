//! The [`TryLog`] trait: the six logging operations as methods on any
//! fallible value.
//!
//! Three policies, each in a static-message and a lazy-message variant:
//!
//! | method                   | on failure                      | severity |
//! | ------------------------ | ------------------------------- | -------- |
//! | `inspect_or_log*`        | log, hand the failure back      | info     |
//! | `unwrap_or_default_log*` | log, substitute the default     | warn     |
//! | `unwrap_or_log*`         | log, abort with the same text   | error    |
//!
//! The abort of the error policy cannot stand in verified code, so the
//! `unwrap_or_log*` methods here are restricted to success-state values;
//! the failure path of that policy is [`crate::ops::unwrap_or_and`], which
//! records the error line and returns its text for the embedding program
//! to abort with.

use vstd::pervasive::unreached;
use vstd::prelude::*;

use crate::fallible::DebugText;
use crate::fallible::Fallible;
use crate::fallible::FallibleCase;
use crate::fallible::is_success;
use crate::fallible::output_of;
use crate::fallible::residual_of;
use crate::ops::DefaultValue;
use crate::ops::failure_text;
use crate::ops::inspect_or_and;
use crate::ops::unwrap_or_default_and;
use crate::sink::Severity;
use crate::sink::Sink;

verus! {

/// The or-log methods, available on every fallible value.
///
/// On a success-state value every method is silent: the sink is left
/// untouched and no message is built.  On a failure-state value exactly one
/// line, `"<message>: <residual>"`, is recorded at the method's severity.
pub trait TryLog<T, R: DebugText>: Fallible<Output = T, Residual = R> {
    /// Record the failure at info severity and hand the value back
    /// unchanged, whichever state it is in.
    fn inspect_or_log(self, msg: &str, sink: &mut Sink) -> (r: Self)
        ensures
            r == self,
            is_success(self) ==> final(sink)@ == old(sink)@,
            !is_success(self) ==> final(sink)@ == old(sink)@.push(
                (Severity::Info, failure_text(msg@, residual_of(self).debug_text())),
            ),
    ;

    /// As [`Self::inspect_or_log`], with the message produced by `f`, which
    /// is only invoked on the failure path.
    fn inspect_or_log_with<M: FnOnce() -> String>(self, f: M, sink: &mut Sink) -> (r: Self)
        requires
            call_requires(f, ()),
        ensures
            r == self,
            is_success(self) ==> final(sink)@ == old(sink)@,
            !is_success(self) ==> exists|m: String|
                call_ensures(f, (), m) && final(sink)@ == old(sink)@.push(
                    (Severity::Info, failure_text(m@, residual_of(self).debug_text())),
                ),
    ;

    /// Record the failure at warn severity and return the payload type's
    /// designated default in its place; a success gives up its payload.
    fn unwrap_or_default_log(self, msg: &str, sink: &mut Sink) -> (r: T) where T: DefaultValue
        ensures
            is_success(self) ==> r == output_of(self) && final(sink)@ == old(sink)@,
            !is_success(self) ==> r == T::spec_default() && final(sink)@ == old(sink)@.push(
                (Severity::Warn, failure_text(msg@, residual_of(self).debug_text())),
            ),
    ;

    /// As [`Self::unwrap_or_default_log`], with the message produced by
    /// `f`, which is only invoked on the failure path.
    fn unwrap_or_default_log_with<M: FnOnce() -> String>(self, f: M, sink: &mut Sink) -> (r:
        T) where T: DefaultValue
        requires
            call_requires(f, ()),
        ensures
            is_success(self) ==> r == output_of(self) && final(sink)@ == old(sink)@,
            !is_success(self) ==> (r == T::spec_default() && exists|m: String|
                call_ensures(f, (), m) && final(sink)@ == old(sink)@.push(
                    (Severity::Warn, failure_text(m@, residual_of(self).debug_text())),
                )),
    ;

    /// The payload of a success-state value.
    ///
    /// Restricted to the success state: on a failure this policy aborts,
    /// which verified code does not do.  The failure path lives in
    /// [`crate::ops::unwrap_or_and`].
    fn unwrap_or_log(self, msg: &str) -> (r: T)
        requires
            is_success(self),
        ensures
            r == output_of(self),
    ;

    /// As [`Self::unwrap_or_log`]; the message callback is never invoked,
    /// since on the success state there is nothing to log.
    fn unwrap_or_log_with<M: FnOnce() -> String>(self, f: M) -> (r: T)
        requires
            is_success(self),
        ensures
            r == output_of(self),
    ;
}

impl<T, R: DebugText, F: Fallible<Output = T, Residual = R>> TryLog<T, R> for F {
    fn inspect_or_log(self, msg: &str, sink: &mut Sink) -> (r: Self) {
        let ghost t0 = self;
        let ghost s0 = sink@;
        let g = || -> (m: String)
            ensures
                m@ == msg@,
            { msg.to_owned() };
        let r = inspect_or_and(self, g, Severity::Info, sink);
        proof {
            if !is_success(t0) {
                let m = choose|m: String|
                    call_ensures(g, (), m) && sink@ == s0.push(
                        (Severity::Info, failure_text(m@, residual_of(t0).debug_text())),
                    );
                assert(m@ == msg@);
            }
        }
        r
    }

    fn inspect_or_log_with<M: FnOnce() -> String>(self, f: M, sink: &mut Sink) -> (r: Self) {
        inspect_or_and(self, f, Severity::Info, sink)
    }

    fn unwrap_or_default_log(self, msg: &str, sink: &mut Sink) -> (r: T) where T: DefaultValue {
        let ghost t0 = self;
        let ghost s0 = sink@;
        let g = || -> (m: String)
            ensures
                m@ == msg@,
            { msg.to_owned() };
        let r = unwrap_or_default_and(self, g, Severity::Warn, sink);
        proof {
            if !is_success(t0) {
                let m = choose|m: String|
                    call_ensures(g, (), m) && sink@ == s0.push(
                        (Severity::Warn, failure_text(m@, residual_of(t0).debug_text())),
                    );
                assert(m@ == msg@);
            }
        }
        r
    }

    fn unwrap_or_default_log_with<M: FnOnce() -> String>(self, f: M, sink: &mut Sink) -> (r:
        T) where T: DefaultValue {
        unwrap_or_default_and(self, f, Severity::Warn, sink)
    }

    fn unwrap_or_log(self, _msg: &str) -> (r: T) {
        match self.classify() {
            FallibleCase::Success(v) => v,
            FallibleCase::Failure(_e) => unreached(),
        }
    }

    fn unwrap_or_log_with<M: FnOnce() -> String>(self, _f: M) -> (r: T) {
        match self.classify() {
            FallibleCase::Success(v) => v,
            FallibleCase::Failure(_e) => unreached(),
        }
    }
}

} // verus!
