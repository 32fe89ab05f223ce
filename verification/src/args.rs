//! The argument interpreter: turns the process's argument list into a
//! structured request, or rejects it as malformed.
//!
//! Three positional grammars are accepted, distinguished by token count and
//! literal keywords:
//!
//! | tokens | pattern                              | mode              |
//! |--------|--------------------------------------|-------------------|
//! | 5      | `<command> to output <file>`         | `ShouldContain`   |
//! | 6      | `<command> to not output <file>`     | `ShouldNotContain`|
//! | 6      | `<command> to output exactly <file>` | `ShouldEqual`     |
//!
//! Anything else is rejected as a plain "no match", never a panic.

use vstd::prelude::*;
use vstd::string::StringExecFns;

verus! {

/// The three ways the captured output may be held against the reference
/// content.
#[derive(Clone, Copy, PartialEq, Eq, Structural, Debug)]
pub enum ComparisonType {
    /// The captured output must contain the reference content as a substring.
    ShouldContain,
    /// The captured output must not contain the reference content.
    ShouldNotContain,
    /// The captured output must equal the reference content exactly.
    ShouldEqual,
}

/// One parsed invocation: which command to run, which file holds the
/// reference content, and how the two texts are to be compared.
pub struct UserInput {
    pub file_name: String,
    pub comparison: ComparisonType,
    pub command_being_tested: String,
}

/// The mathematical content of a [`UserInput`]: its texts as character
/// sequences.
pub ghost struct InvocationView {
    pub command: Seq<char>,
    pub file_name: Seq<char>,
    pub comparison: ComparisonType,
}

impl View for UserInput {
    type V = InvocationView;

    open spec fn view(&self) -> InvocationView {
        InvocationView {
            command: self.command_being_tested@,
            file_name: self.file_name@,
            comparison: self.comparison,
        }
    }
}

/// The five-token form `<tool> <command> to output <file>`.
pub open spec fn matches_should_contain(args: Seq<Seq<char>>) -> bool {
    args.len() == 5 && args[2] == "to"@ && args[3] == "output"@
}

/// The six-token form `<tool> <command> to not output <file>`.
pub open spec fn matches_should_not_contain(args: Seq<Seq<char>>) -> bool {
    args.len() == 6 && args[2] == "to"@ && args[3] == "not"@ && args[4] == "output"@
}

/// The six-token form `<tool> <command> to output exactly <file>`.
pub open spec fn matches_should_equal(args: Seq<Seq<char>>) -> bool {
    args.len() == 6 && args[2] == "to"@ && args[3] == "output"@ && args[4] == "exactly"@
}

/// What parsing an argument list yields: the request, or `None` where no
/// grammar matches.
pub open spec fn parse_spec(args: Seq<Seq<char>>) -> Option<InvocationView> {
    if matches_should_contain(args) {
        Some(InvocationView {
            command: args[1],
            file_name: args[4],
            comparison: ComparisonType::ShouldContain,
        })
    } else if matches_should_not_contain(args) {
        Some(InvocationView {
            command: args[1],
            file_name: args[5],
            comparison: ComparisonType::ShouldNotContain,
        })
    } else if matches_should_equal(args) {
        Some(InvocationView {
            command: args[1],
            file_name: args[5],
            comparison: ComparisonType::ShouldEqual,
        })
    } else {
        None
    }
}

/// Parses the full argument list (program name included as element 0) into a
/// request, or rejects it. No further validation happens here: empty command
/// or file names pass through untouched.
pub fn parse_args(args: Vec<String>) -> (r: Option<UserInput>)
    ensures
        (match r {
            Some(u) => parse_spec(args.deep_view()) == Some(u@),
            None => parse_spec(args.deep_view()) is None,
        }),
{
    let to_kw = String::from_str("to");
    let output_kw = String::from_str("output");
    let not_kw = String::from_str("not");
    let exactly_kw = String::from_str("exactly");
    if args.len() == 5 && args[2] == to_kw && args[3] == output_kw {
        Some(UserInput {
            comparison: ComparisonType::ShouldContain,
            command_being_tested: args[1].clone(),
            file_name: args[4].clone(),
        })
    } else if args.len() == 6 && args[2] == to_kw && args[3] == not_kw && args[4] == output_kw {
        Some(UserInput {
            comparison: ComparisonType::ShouldNotContain,
            command_being_tested: args[1].clone(),
            file_name: args[5].clone(),
        })
    } else if args.len() == 6 && args[2] == to_kw && args[3] == output_kw && args[4] == exactly_kw {
        Some(UserInput {
            comparison: ComparisonType::ShouldEqual,
            command_being_tested: args[1].clone(),
            file_name: args[5].clone(),
        })
    } else {
        None
    }
}

/// The three grammars are mutually exclusive: no argument list matches two of
/// them, so each list of five or six tokens either determines exactly one
/// comparison mode or is rejected.
pub proof fn lemma_grammars_mutually_exclusive(args: Seq<Seq<char>>)
    ensures
        !(matches_should_contain(args) && matches_should_not_contain(args)),
        !(matches_should_contain(args) && matches_should_equal(args)),
        !(matches_should_not_contain(args) && matches_should_equal(args)),
        parse_spec(args) is Some <==> (matches_should_contain(args)
            || matches_should_not_contain(args) || matches_should_equal(args)),
{
    reveal_strlit("not");
    reveal_strlit("output");
    assert("not"@.len() == 3);
    assert("output"@.len() == 6);
}

} // verus!
