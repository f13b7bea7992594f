//! The shared telemetry state: one string, the most recently pushed
//! external temperature reading, or a sentinel before any push.

use vstd::prelude::*;
use vstd::string::StringExecFns;

verus! {

/// The value that the state holds before any frame has been ingested.
pub open spec fn sentinel() -> Seq<char> {
    "-1"@
}

/// The last pushed temperature. It always holds a whole string: a writer
/// needs exclusive access and replaces the value in one step.
pub struct TelemetryState {
    temperature: String,
}

impl View for TelemetryState {
    type V = Seq<char>;

    closed spec fn view(&self) -> Seq<char> {
        self.temperature@
    }
}

impl TelemetryState {
    /// The state at startup: the sentinel.
    pub fn new() -> (state: Self)
        ensures
            state@ == sentinel(),
    {
        TelemetryState { temperature: String::from_str("-1") }
    }

    /// Replaces the stored value by `value`, whatever it holds.
    pub fn set_temperature(&mut self, value: String)
        ensures
            final(self)@ == value@,
    {
        self.temperature = value;
    }

    /// The current value, verbatim.
    pub fn get_temperature(&self) -> (value: String)
        ensures
            value@ == self@,
    {
        self.temperature.clone()
    }
}

} // verus!
