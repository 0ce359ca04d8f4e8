use vstd::prelude::*;

verus! {

/// Severity of a log record, from the most severe (`Error`) to the least
/// severe (`Trace`).
#[derive(Clone, Copy, Debug, PartialEq, Eq, Structural)]
pub enum Severity {
    Error,
    Warn,
    Info,
    Debug,
    Trace,
}

/// The threshold used by this adapter: everything down to `Debug` passes.
pub const DEBUG_FLOOR: Severity = Severity::Debug;

/// Position of a severity in the fixed total order; a smaller rank is more
/// severe.
pub open spec fn rank(s: Severity) -> nat {
    match s {
        Severity::Error => 1,
        Severity::Warn => 2,
        Severity::Info => 3,
        Severity::Debug => 4,
        Severity::Trace => 5,
    }
}

/// A record of severity `s` passes the threshold `t` when it is at least as
/// severe as `t`.
pub open spec fn passes(s: Severity, t: Severity) -> bool {
    rank(s) <= rank(t)
}

impl Severity {
    /// Executable counterpart of `rank`.
    pub fn rank(&self) -> (r: u8)
        ensures
            r as nat == rank(*self),
    {
        match self {
            Severity::Error => 1,
            Severity::Warn => 2,
            Severity::Info => 3,
            Severity::Debug => 4,
            Severity::Trace => 5,
        }
    }

    /// Whether a record of this severity passes `threshold`.
    pub fn passes(&self, threshold: Severity) -> (r: bool)
        ensures
            r == passes(*self, threshold),
    {
        self.rank() <= threshold.rank()
    }
}

/// Under the `Debug` floor, exactly the four severities other than `Trace`
/// pass.
pub proof fn lemma_debug_floor(s: Severity)
    ensures
        passes(s, DEBUG_FLOOR) <==> s != Severity::Trace,
        passes(Severity::Error, DEBUG_FLOOR),
        passes(Severity::Warn, DEBUG_FLOOR),
        passes(Severity::Info, DEBUG_FLOOR),
        passes(Severity::Debug, DEBUG_FLOOR),
        !passes(Severity::Trace, DEBUG_FLOOR),
{
}

} // verus!
