//! The logging sink: a buffer of severity-tagged lines.
//!
//! The operations of this crate never talk to a logging facility directly;
//! they append [`Record`]s to a [`Sink`], and the embedding program delivers
//! the buffered records.  This keeps the decision of *what* is logged — the
//! severity and the exact text — inside verified code.

use vstd::prelude::*;

verus! {

/// The severity of one log line.
///
/// Each operation of this crate logs at exactly one severity: inspecting
/// logs at `Info`, substituting a default logs at `Warn`, and aborting logs
/// at `Error`.
#[derive(Clone, Copy, Debug, PartialEq, Eq, Structural)]
pub enum Severity {
    /// The failure is merely noted and handed back unchanged.
    Info,
    /// The failure is absorbed and replaced by a default payload.
    Warn,
    /// The failure is escalated: the caller is expected to abort.
    Error,
}

/// One log line: a severity and the formatted text.
#[derive(Debug)]
pub struct Record {
    /// The severity the line was emitted at.
    pub severity: Severity,
    /// The formatted text of the line.
    pub text: String,
}

impl View for Record {
    type V = (Severity, Seq<char>);

    open spec fn view(&self) -> (Severity, Seq<char>) {
        (self.severity, self.text@)
    }
}

/// A buffer of log lines, in the order they were emitted.
#[derive(Debug)]
pub struct Sink {
    /// The emitted records, oldest first.
    pub records: Vec<Record>,
}

impl View for Sink {
    type V = Seq<(Severity, Seq<char>)>;

    open spec fn view(&self) -> Seq<(Severity, Seq<char>)> {
        self.records@.map_values(|r: Record| r@)
    }
}

impl Sink {
    /// An empty sink: nothing has been emitted yet.
    pub fn new() -> (s: Sink)
        ensures
            s@ == Seq::<(Severity, Seq<char>)>::empty(),
    {
        let s = Sink { records: Vec::new() };
        proof {
            assert(s@ =~= Seq::<(Severity, Seq<char>)>::empty());
        }
        s
    }

    /// Append one line at the given severity.
    pub fn emit(&mut self, severity: Severity, text: String)
        ensures
            final(self)@ == old(self)@.push((severity, text@)),
    {
        let ghost before = self@;
        let ghost t = text@;
        self.records.push(Record { severity, text });
        proof {
            assert(self@ =~= before.push((severity, t)));
        }
    }

    /// How many lines have been emitted.
    pub fn len(&self) -> (n: usize)
        ensures
            n == self@.len(),
    {
        self.records.len()
    }
}

} // verus!
