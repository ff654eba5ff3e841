//! In-game error values. A `WarnError` describes a recoverable condition that
//! the host logs and play continues; a `FatalError` describes a condition the
//! host aborts on. Neither kind may interrupt a simulation tick: this crate
//! only builds the report text, and the host decides what to do with it.

use vstd::prelude::*;

verus! {

use vstd::string::StringExecFns;

/// A condition that ends the program, with the exit code the host should
/// abort with.
#[derive(Clone, PartialEq, Eq, Debug)]
pub struct FatalError {
    pub message: String,
    pub exit_code: i32,
}

/// A recoverable condition worth logging. `possible_bug` marks conditions
/// that should never arise from content alone.
#[derive(Clone, PartialEq, Eq, Debug)]
pub struct WarnError {
    pub message: String,
    pub possible_bug: bool,
    pub warn_code: i32,
}

impl WarnError {
    pub fn new(message: String, warn_code: i32, possible_bug: bool) -> (e: WarnError)
        ensures
            e.message@ == message@,
            e.warn_code == warn_code,
            e.possible_bug == possible_bug,
    {
        WarnError { message, warn_code, possible_bug }
    }

    /// The line the host logs for this warning: a fixed prefix followed by
    /// the stored message.
    pub fn trigger(&self) -> (line: String)
        ensures
            line@ == "WarnError triggered: "@ + self.message@,
    {
        let mut line = String::from_str("WarnError triggered: ");
        line.append(self.message.as_str());
        line
    }

    /// The log line for this warning with extra information appended after
    /// the stored message.
    pub fn trigger_msg(&self, message: &str) -> (line: String)
        ensures
            line@ == "WarnError triggered: "@ + self.message@ + "; additional information: "@
                + message@,
    {
        let mut line = self.trigger();
        line.append("; additional information: ");
        line.append(message);
        line
    }
}

impl FatalError {
    pub fn new(message: String, exit_code: i32) -> (e: FatalError)
        ensures
            e.message@ == message@,
            e.exit_code == exit_code,
    {
        FatalError { message, exit_code }
    }

    /// The report the host aborts with: the message to print and the exit
    /// code to end the process with. Consuming the error makes clear that
    /// nothing runs on after it.
    pub fn exit_with_fatal_error(self) -> (report: (String, i32))
        ensures
            report.0@ == "Fatal in-game error: "@ + self.message@,
            report.1 == self.exit_code,
    {
        let mut line = String::from_str("Fatal in-game error: ");
        line.append(self.message.as_str());
        (line, self.exit_code)
    }
}

} // verus!
