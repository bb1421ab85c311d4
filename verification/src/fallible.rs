//! The fallible-value protocol.
//!
//! A fallible value is in exactly one of two states: a success carrying a
//! payload, or a failure carrying a residual.  The [`Fallible`] trait lets
//! the operations of this crate classify such a value into the two cases and
//! rebuild it from either case; it is implemented here for `Option` (the
//! residual is [`Absent`]) and for `Result` (the residual is the error
//! payload).
//!
//! A residual must render itself as text for the log line; that is the
//! [`DebugText`] trait.

use vstd::prelude::*;

verus! {

/// A human-readable rendering of a failure residual, for log lines.
pub trait DebugText {
    /// The rendered text, as a sequence of characters.
    spec fn debug_text(&self) -> Seq<char>;

    /// Produce the rendered text.
    fn render(&self) -> (r: String)
        ensures
            r@ == self.debug_text(),
    ;
}

/// The residual of an `Option`: the absent-value state.
///
/// Its rendering is the text `None`, the way the absent state of an
/// optional value is conventionally written.
#[derive(Clone, Copy, Debug, PartialEq, Eq, Structural)]
pub struct Absent;

impl DebugText for Absent {
    open spec fn debug_text(&self) -> Seq<char> {
        "None"@
    }

    fn render(&self) -> (r: String) {
        "None".to_owned()
    }
}

impl DebugText for String {
    open spec fn debug_text(&self) -> Seq<char> {
        self@
    }

    fn render(&self) -> (r: String) {
        self.as_str().to_owned()
    }
}

impl DebugText for bool {
    open spec fn debug_text(&self) -> Seq<char> {
        if *self {
            "true"@
        } else {
            "false"@
        }
    }

    fn render(&self) -> (r: String) {
        if *self {
            "true".to_owned()
        } else {
            "false".to_owned()
        }
    }
}

/// The two states a fallible value can be in.
#[derive(Debug, PartialEq, Eq)]
pub enum FallibleCase<T, R> {
    /// A success, carrying its payload.
    Success(T),
    /// A failure, carrying its residual.
    Failure(R),
}

/// A value that is either a success with a payload or a failure with a
/// residual, and that can be taken apart and rebuilt.
///
/// `classify` and the two rebuilding operations are exact inverses: the
/// spec function `case_of` is the value's whole logical content, and
/// `lemma_case_determines` states that it determines the value.
pub trait Fallible: Sized {
    /// The payload type of a success.
    type Output;

    /// The residual type of a failure.
    type Residual: DebugText;

    /// The logical state of the value.
    spec fn case_of(self) -> FallibleCase<Self::Output, Self::Residual>;

    /// Two values with the same case are the same value.
    proof fn lemma_case_determines(a: Self, b: Self)
        requires
            a.case_of() == b.case_of(),
        ensures
            a == b,
    ;

    /// Split the value into its case.
    fn classify(self) -> (c: FallibleCase<Self::Output, Self::Residual>)
        ensures
            c == self.case_of(),
    ;

    /// Rebuild a success from its payload.
    fn from_output(o: Self::Output) -> (r: Self)
        ensures
            r.case_of() == FallibleCase::Success::<Self::Output, Self::Residual>(o),
    ;

    /// Rebuild a failure from its residual.
    fn from_residual(e: Self::Residual) -> (r: Self)
        ensures
            r.case_of() == FallibleCase::Failure::<Self::Output, Self::Residual>(e),
    ;
}

/// Whether the value is in the success state.
pub open spec fn is_success<F: Fallible>(t: F) -> bool {
    t.case_of() is Success
}

/// The payload of a success-state value.
pub open spec fn output_of<F: Fallible>(t: F) -> F::Output {
    t.case_of()->Success_0
}

/// The residual of a failure-state value.
pub open spec fn residual_of<F: Fallible>(t: F) -> F::Residual {
    t.case_of()->Failure_0
}

impl<T> Fallible for Option<T> {
    type Output = T;

    type Residual = Absent;

    open spec fn case_of(self) -> FallibleCase<T, Absent> {
        match self {
            Some(v) => FallibleCase::Success(v),
            None => FallibleCase::Failure(Absent),
        }
    }

    proof fn lemma_case_determines(a: Self, b: Self) {
    }

    fn classify(self) -> (c: FallibleCase<T, Absent>) {
        match self {
            Some(v) => FallibleCase::Success(v),
            None => FallibleCase::Failure(Absent),
        }
    }

    fn from_output(o: T) -> (r: Self) {
        Some(o)
    }

    fn from_residual(e: Absent) -> (r: Self) {
        None
    }
}

impl<T, E: DebugText> Fallible for Result<T, E> {
    type Output = T;

    type Residual = E;

    open spec fn case_of(self) -> FallibleCase<T, E> {
        match self {
            Ok(v) => FallibleCase::Success(v),
            Err(e) => FallibleCase::Failure(e),
        }
    }

    proof fn lemma_case_determines(a: Self, b: Self) {
    }

    fn classify(self) -> (c: FallibleCase<T, E>) {
        match self {
            Ok(v) => FallibleCase::Success(v),
            Err(e) => FallibleCase::Failure(e),
        }
    }

    fn from_output(o: T) -> (r: Self) {
        Ok(o)
    }

    fn from_residual(e: E) -> (r: Self) {
        Err(e)
    }
}

} // verus!
