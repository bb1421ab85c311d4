//! Branch-and-restore wrappers over the fallible-value protocol.
//!
//! These types spell the protocol out as values: wrapping a fallible value
//! and branching on it yields either a continue side holding the payload or
//! a break side holding the residual, and each side can restore a value of
//! the wrapped kind.  They are the building blocks that open-coded
//! expansions of the operations use.

use vstd::prelude::*;

use crate::fallible::DebugText;
use crate::fallible::Fallible;
use crate::fallible::FallibleCase;

verus! {

/// A fallible value about to be branched on.
pub struct __TryWrapper<F: Fallible>(pub F);

/// The outcome of branching: one side per state.
pub enum __ControlFlowWrapper<F: Fallible> {
    /// The success side, holding the payload.
    Continue(__ControlFlowContinue<F>),
    /// The failure side, holding the residual.
    Break(__ControlFlowBreak<F>),
}

/// The success side of a branch: the payload of the wrapped value.
pub struct __ControlFlowContinue<F: Fallible>(pub F::Output);

/// The failure side of a branch: the residual of the wrapped value.
pub struct __ControlFlowBreak<F: Fallible>(pub F::Residual);

impl<F: Fallible> __TryWrapper<F> {
    /// Split the wrapped value into its side of the branch.
    pub fn branch(self) -> (r: __ControlFlowWrapper<F>)
        ensures
            (match r {
                __ControlFlowWrapper::Continue(c) => self.0.case_of()
                    == FallibleCase::Success::<F::Output, F::Residual>(c.0),
                __ControlFlowWrapper::Break(b) => self.0.case_of()
                    == FallibleCase::Failure::<F::Output, F::Residual>(b.0),
            }),
    {
        match self.0.classify() {
            FallibleCase::Success(v) => __ControlFlowWrapper::Continue(__ControlFlowContinue(v)),
            FallibleCase::Failure(e) => __ControlFlowWrapper::Break(__ControlFlowBreak(e)),
        }
    }
}

impl<F: Fallible> __ControlFlowContinue<F> {
    /// Rebuild the success-state value this side was split from.
    pub fn restore(self) -> (r: F)
        ensures
            r.case_of() == FallibleCase::Success::<F::Output, F::Residual>(self.0),
    {
        F::from_output(self.0)
    }
}

impl<F: Fallible> DebugText for __ControlFlowBreak<F> {
    open spec fn debug_text(&self) -> Seq<char> {
        self.0.debug_text()
    }

    fn render(&self) -> (r: String) {
        self.0.render()
    }
}

impl<F: Fallible> __ControlFlowBreak<F> {
    /// Rebuild a failure-state value carrying this side's residual.
    pub fn restore(self) -> (r: F)
        ensures
            r.case_of() == FallibleCase::Failure::<F::Output, F::Residual>(self.0),
    {
        F::from_residual(self.0)
    }
}

} // verus!
