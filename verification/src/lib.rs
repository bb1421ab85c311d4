//! Logging companions for fallible values.
//!
//! A fallible value is either a success carrying a payload or a failure
//! carrying a residual.  The operations of this crate inspect such a value
//! and, when it is a failure, record one log line at a fixed severity and
//! then either hand the failure back, substitute a default payload, or
//! report a message for the caller to abort with.
//!
//! Emission is modelled by a [`sink::Sink`]: a buffer of severity-tagged
//! lines.  The operations append to it; delivering the buffered lines to a
//! process-wide logging facility is the embedding program's concern.

pub mod decimal;
pub mod fallible;
pub mod ops;
pub mod sink;
pub mod trylog;
pub mod wrapper;

pub use decimal::i64_dec;
pub use decimal::u64_dec;
pub use fallible::Absent;
pub use fallible::DebugText;
pub use fallible::Fallible;
pub use fallible::FallibleCase;
pub use ops::DefaultValue;
pub use ops::failure_text;
pub use ops::inspect_or_and;
pub use ops::render_failure;
pub use ops::unwrap_or_and;
pub use ops::unwrap_or_default_and;
pub use sink::Record;
pub use sink::Severity;
pub use sink::Sink;
pub use trylog::TryLog;
pub use wrapper::__ControlFlowBreak;
pub use wrapper::__ControlFlowContinue;
pub use wrapper::__ControlFlowWrapper;
pub use wrapper::__TryWrapper;
