use vstd::prelude::*;

verus! {

/// Severity of an event as emitted by a call site.
#[derive(Clone, Copy, Debug, PartialEq, Eq, Structural)]
pub enum EventLevel {
    Trace,
    Debug,
    Info,
    Warn,
    Error,
}

/// Severity as forwarded to the remote sink.
#[derive(Clone, Copy, Debug, PartialEq, Eq, Structural)]
pub enum TelemetryLogLevel {
    Debug,
    Info,
    Warn,
    Error,
}

pub open spec fn level_of_event(l: EventLevel) -> TelemetryLogLevel {
    match l {
        EventLevel::Error => TelemetryLogLevel::Error,
        EventLevel::Warn => TelemetryLogLevel::Warn,
        EventLevel::Info => TelemetryLogLevel::Info,
        EventLevel::Debug | EventLevel::Trace => TelemetryLogLevel::Debug,
    }
}

impl TelemetryLogLevel {
    /// Trace events are folded into debug; the other levels map one to one.
    pub fn from_event_level(l: EventLevel) -> (r: TelemetryLogLevel)
        ensures
            r == level_of_event(l),
    {
        match l {
            EventLevel::Error => TelemetryLogLevel::Error,
            EventLevel::Warn => TelemetryLogLevel::Warn,
            EventLevel::Info => TelemetryLogLevel::Info,
            EventLevel::Debug | EventLevel::Trace => TelemetryLogLevel::Debug,
        }
    }

    pub open spec fn text_spec(self) -> Seq<char> {
        match self {
            TelemetryLogLevel::Debug => "debug"@,
            TelemetryLogLevel::Info => "info"@,
            TelemetryLogLevel::Warn => "warn"@,
            TelemetryLogLevel::Error => "error"@,
        }
    }

    /// The lower-case name the sink expects.
    pub fn to_string(&self) -> (r: String)
        ensures
            r@ == self.text_spec(),
    {
        match self {
            TelemetryLogLevel::Debug => String::from_str("debug"),
            TelemetryLogLevel::Info => String::from_str("info"),
            TelemetryLogLevel::Warn => String::from_str("warn"),
            TelemetryLogLevel::Error => String::from_str("error"),
        }
    }
}

} // verus!
