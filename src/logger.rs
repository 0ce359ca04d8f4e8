use vstd::prelude::*;
use vstd::string::StringSliceAdditionalSpecFns;
use crate::level::{passes, Severity, DEBUG_FLOOR};
use crate::message::{has_terminator, render, rendered, FormatError, RenderedMessage};
use crate::sink::{sink_for, sink_of, Sink};

verus! {

/// A message ready to cross the host boundary, with the sink it goes to.
pub struct Delivery {
    pub sink: Sink,
    pub message: RenderedMessage,
}

/// The adapter: filters records against the `Debug` floor, renders the ones
/// that pass and picks the host sink for each.
pub struct ClamLogger;

/// Whether a record of severity `s` is rendered and handed to a sink: it
/// passes the floor and the sink table has an entry for it.
pub open spec fn accepts(s: Severity) -> bool {
    passes(s, DEBUG_FLOOR) && sink_of(s) is Some
}

impl ClamLogger {
    pub fn new() -> ClamLogger {
        ClamLogger
    }

    /// Whether records of severity `s` are delivered at all.
    pub fn enabled(&self, s: Severity) -> (r: bool)
        ensures
            r == passes(s, DEBUG_FLOOR),
    {
        s.passes(DEBUG_FLOOR)
    }

    /// Handles one record. A record below the floor, or without a sink, is
    /// dropped (`Ok(None)`). Text that holds the boundary terminator is
    /// refused with `EmbeddedTerminator` and nothing is delivered. Otherwise
    /// the result carries the record's sink and its text followed by one
    /// line terminator.
    pub fn log(&self, s: Severity, text: &str) -> (r: Result<Option<Delivery>, FormatError>)
        ensures
            !accepts(s) ==> r == Ok::<Option<Delivery>, FormatError>(None),
            accepts(s) && has_terminator(text.spec_bytes()) ==> r == Err::<
                Option<Delivery>,
                FormatError,
            >(FormatError::EmbeddedTerminator),
            accepts(s) && !has_terminator(text.spec_bytes()) ==> (r matches Ok(Some(d)) && Some(
                d.sink,
            ) == sink_of(s) && d.message.wf() && d.message@ == rendered(text.spec_bytes())),
    {
        if !self.enabled(s) {
            return Ok(None);
        }
        match sink_for(s) {
            None => Ok(None),
            Some(sink) => match render(text) {
                Ok(message) => Ok(Some(Delivery { sink, message })),
                Err(e) => Err(e),
            },
        }
    }
}

} // verus!
