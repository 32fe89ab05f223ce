//! The reporter: the four terminal outcomes of a run, their exit codes, and
//! the exact status text each one prints.
//!
//! The exit codes are a deliberate contract for callers: `0` means the
//! assertion passed, `1` means the invocation itself was bad or the
//! reference file unreadable, `2` means the assertion failed.

use vstd::prelude::*;
use vstd::string::StringExecFns;

verus! {

/// The four terminal outcomes of one run.
#[derive(Clone, Copy, PartialEq, Eq, Structural, Debug)]
pub enum Outcome {
    /// The argument list matched no accepted grammar.
    BadUsage,
    /// The reference file could not be read.
    UnreadableFile,
    /// The comparison held.
    Passed,
    /// The comparison did not hold.
    Failed,
}

/// The exit code owed to each terminal outcome.
pub open spec fn exit_code_spec(o: Outcome) -> int {
    match o {
        Outcome::BadUsage => 1,
        Outcome::UnreadableFile => 1,
        Outcome::Passed => 0,
        Outcome::Failed => 2,
    }
}

impl Outcome {
    /// The process exit code for this outcome: pass 0, bad invocation or
    /// unreadable reference file 1, failed assertion 2.
    pub fn exit_code(&self) -> (c: i32)
        ensures
            c as int == exit_code_spec(*self),
    {
        match self {
            Outcome::BadUsage => 1,
            Outcome::UnreadableFile => 1,
            Outcome::Passed => 0,
            Outcome::Failed => 2,
        }
    }
}

/// Maps the comparator's verdict to its terminal outcome.
pub fn verdict_outcome(passed: bool) -> (o: Outcome)
    ensures
        o == (if passed {
            Outcome::Passed
        } else {
            Outcome::Failed
        }),
{
    if passed {
        Outcome::Passed
    } else {
        Outcome::Failed
    }
}

/// The one status line printed when the assertion holds.
pub fn passed_message() -> (r: String)
    ensures
        r@ == "Passed. Output matched the expectation."@,
{
    String::from_str("Passed. Output matched the expectation.")
}

/// The one status line printed when the assertion does not hold.
pub fn failed_message() -> (r: String)
    ensures
        r@ == "Failed. Output did not match the expectation."@,
{
    String::from_str("Failed. Output did not match the expectation.")
}

/// The status line printed when the reference file cannot be read; it names
/// the offending path.
pub fn unreadable_message(file_name: &str) -> (r: String)
    ensures
        r@ == "Can't read from "@ + file_name@,
{
    let mut r = String::from_str("Can't read from ");
    r.append(file_name);
    r
}

/// The usage block printed on a malformed invocation: one line per accepted
/// grammar, headed by `Usage:`.
pub fn usage_lines() -> (r: Vec<String>)
    ensures
        r@.len() == 4,
        r@[0]@ == "Usage:"@,
        r@[1]@ == "expect \"command\" to output sample.txt"@,
        r@[2]@ == "expect \"command\" to not output sample.txt"@,
        r@[3]@ == "expect \"command\" to output exactly sample.txt"@,
{
    let mut r: Vec<String> = Vec::new();
    r.push(String::from_str("Usage:"));
    r.push(String::from_str("expect \"command\" to output sample.txt"));
    r.push(String::from_str("expect \"command\" to not output sample.txt"));
    r.push(String::from_str("expect \"command\" to output exactly sample.txt"));
    r
}

} // verus!
