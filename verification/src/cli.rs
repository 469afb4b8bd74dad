//! The command line: one positional argument, the source file.

use vstd::prelude::*;
use vstd::string::*;

verus! {

/// What is printed when the file argument is missing.
pub const USAGE: &'static str = "Must supply file name";

/// Exit status when the file argument is missing.
pub const USAGE_EXIT_CODE: i32 = 2;

/// What the program was asked to do.
#[derive(Debug, PartialEq, Eq)]
pub enum Invocation {
    /// Print `message` and exit with status `code`; touch nothing else.
    Usage { message: String, code: i32 },
    /// Preview the file at this path.
    Preview(String),
}

/// An [`Invocation`] as texts.
pub ghost enum InvocationView {
    Usage { message: Seq<char>, code: int },
    Preview(Seq<char>),
}

impl View for Invocation {
    type V = InvocationView;

    open spec fn view(&self) -> InvocationView {
        match self {
            Invocation::Usage { message, code } => InvocationView::Usage {
                message: message@,
                code: *code as int,
            },
            Invocation::Preview(filename) => InvocationView::Preview(filename@),
        }
    }
}

/// What the arguments ask for: with fewer than two of them the usage
/// message and exit status 2, else a preview of the second.
pub open spec fn spec_parse_args(args: Seq<String>) -> InvocationView {
    if args.len() < 2 {
        InvocationView::Usage { message: USAGE@, code: 2 }
    } else {
        InvocationView::Preview(args[1]@)
    }
}

/// Reads the arguments, of which the first is the program's own name.
///
/// Without a file argument the program is to print the usage message and
/// exit with status 2. Otherwise the first argument after the program's
/// name is the file to preview; further arguments are ignored.
pub fn parse_args(args: &Vec<String>) -> (invocation: Invocation)
    ensures
        invocation@ == spec_parse_args(args@),
{
    if args.len() < 2 {
        Invocation::Usage { message: USAGE.to_owned(), code: USAGE_EXIT_CODE }
    } else {
        Invocation::Preview(args[1].clone())
    }
}

} // verus!
