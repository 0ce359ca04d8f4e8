use vstd::prelude::*;
use crate::level::Severity;

verus! {

/// One of the host's output functions, one per actionable severity.
#[derive(Clone, Copy, Debug, PartialEq, Eq, Structural)]
pub enum Sink {
    Error,
    Warn,
    Info,
    Debug,
}

/// The sink table: each severity but `Trace` has its own sink; `Trace` has
/// none.
pub open spec fn sink_of(s: Severity) -> Option<Sink> {
    match s {
        Severity::Error => Some(Sink::Error),
        Severity::Warn => Some(Sink::Warn),
        Severity::Info => Some(Sink::Info),
        Severity::Debug => Some(Sink::Debug),
        Severity::Trace => None,
    }
}

/// Looks a severity up in the sink table.
pub fn sink_for(s: Severity) -> (r: Option<Sink>)
    ensures
        r == sink_of(s),
{
    match s {
        Severity::Error => Some(Sink::Error),
        Severity::Warn => Some(Sink::Warn),
        Severity::Info => Some(Sink::Info),
        Severity::Debug => Some(Sink::Debug),
        Severity::Trace => None,
    }
}

/// Routing is one to one: two severities that reach the same sink are the
/// same severity, so a record never reaches the sink of another severity.
pub proof fn lemma_routing_exclusive(a: Severity, b: Severity)
    ensures
        sink_of(a) is Some && sink_of(a) == sink_of(b) ==> a == b,
        sink_of(a) is None <==> a == Severity::Trace,
{
}

} // verus!
