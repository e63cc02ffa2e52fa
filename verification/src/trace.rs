//! The log output formats the daemon can be asked for.

use vstd::prelude::*;

verus! {

/// How trace output is formatted. Parsing is lower-case; the default
/// is the single-line human-readable form.
#[derive(Copy, Clone, PartialEq, Eq, Structural, Debug)]
pub enum TraceFormat {
    /// Human-readable text logging format.
    Text,
    /// Multi-line human-readable text logging format.
    Pretty,
    /// JSON logging format.
    Json,
    /// Log to journald, rather than to stdout.
    Journald,
}

impl TraceFormat {
    pub open spec fn spec_str(self) -> Seq<char> {
        match self {
            TraceFormat::Text => "text"@,
            TraceFormat::Pretty => "pretty"@,
            TraceFormat::Json => "json"@,
            TraceFormat::Journald => "journald"@,
        }
    }

    /// The format's lower-case name.
    pub fn as_str(&self) -> (r: &'static str)
        ensures
            r@ == self.spec_str(),
    {
        match self {
            TraceFormat::Text => "text",
            TraceFormat::Pretty => "pretty",
            TraceFormat::Json => "json",
            TraceFormat::Journald => "journald",
        }
    }
}

impl Default for TraceFormat {
    fn default() -> (r: TraceFormat)
        ensures
            r == TraceFormat::Text,
    {
        TraceFormat::Text
    }
}

} // verus!
