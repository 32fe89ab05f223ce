//! A command-line assertion library: run a shell command, capture its
//! standard output, and compare it against the contents of a reference file.
//!
//! The pipeline is: argument interpretation ([`args`]) -> output
//! normalization and comparison ([`text`]) -> outcome and exit-code
//! reporting ([`report`]). Command execution and file reading are I/O and
//! live with the binary; everything that decides is here and verified.

pub mod args;
pub mod report;
pub mod text;

use vstd::prelude::*;

verus! {

use crate::args::ComparisonType;
use crate::report::Outcome;

/// Normalizes both texts, applies the comparison mode, and maps the verdict
/// to its terminal outcome: `Passed` exactly when the normalized captured
/// output stands in the requested relation to the normalized reference
/// content, `Failed` otherwise.
pub fn check_expectation(reference: &str, output: &str, mode: ComparisonType) -> (o: Outcome)
    ensures
        o == (if text::verdict_spec(reference@, output@, mode) {
            Outcome::Passed
        } else {
            Outcome::Failed
        }),
{
    report::verdict_outcome(text::evaluate(reference, output, mode))
}

} // verus!
