//! What the command line does with its arguments. Reading the arguments,
//! writing the line and leaving the process are the caller's part.

use crate::{greet, greeting_text};
use vstd::prelude::*;

verus! {

/// How a run of the command line ends.
#[derive(Debug)]
pub enum Outcome {
    /// A name was given. The line is written to standard output, followed by
    /// a newline, and the exit status is 0.
    Greeted(String),
    /// No name was given. The line is written to standard error, followed by
    /// a newline, and the exit status is 1.
    UsageError(String),
}

/// The usage message of the program that was started as `program`.
pub open spec fn usage_text(program: Seq<char>) -> Seq<char> {
    "Usage: "@ + program + " <name>"@
}

impl Outcome {
    /// The exit status that belongs to this outcome.
    pub open spec fn status(self) -> int {
        match self {
            Outcome::Greeted(_) => 0,
            Outcome::UsageError(_) => 1,
        }
    }

    /// The line to write, without the newline that ends it.
    pub open spec fn line(self) -> Seq<char> {
        match self {
            Outcome::Greeted(line) => line@,
            Outcome::UsageError(line) => line@,
        }
    }

    /// Returns the exit status of the process: 0 after a greeting, 1 after a
    /// usage error.
    pub fn exit_code(&self) -> (code: i32)
        ensures
            code == self.status(),
    {
        match self {
            Outcome::Greeted(_) => 0,
            Outcome::UsageError(_) => 1,
        }
    }
}

/// Decides what a run with the argument list `args` does. `args[0]` is the
/// name under which the program was started, `args[1]` the name to greet;
/// further arguments are ignored. With a name the outcome is its greeting,
/// without one the usage message.
pub fn run(args: &Vec<String>) -> (outcome: Outcome)
    requires
        args@.len() >= 1,
    ensures
        args@.len() >= 2 ==> outcome is Greeted,
        args@.len() < 2 ==> outcome is UsageError,
        outcome is Greeted ==> outcome.line() == greeting_text(args@[1]@),
        outcome is UsageError ==> outcome.line() == usage_text(args@[0]@),
{
    if args.len() < 2 {
        let mut message = String::from_str("Usage: ");
        message.append(args[0].as_str());
        message.append(" <name>");
        Outcome::UsageError(message)
    } else {
        Outcome::Greeted(greet(args[1].as_str()))
    }
}

} // verus!
