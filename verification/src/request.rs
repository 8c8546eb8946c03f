//! The command that a process was asked for by its arguments.

use crate::parser::{recognize, Commands};
use std::str::FromStr;
use vstd::prelude::*;

verus! {

/// Why a list of arguments asks for no command.
#[derive(PartialEq, Eq, Structural, Debug, Clone, Copy)]
pub enum RequestError {
    /// There is no argument after the program's own name.
    MissingArgument,
    /// The argument after the program's own name is no command's spelling.
    UnrecognizedCommand,
}

/// What a list of arguments asks for. The first argument is the program's own
/// name; the second is the command word; any further ones are not looked at.
pub open spec fn requested(args: Seq<Seq<char>>) -> Result<Commands, RequestError> {
    if args.len() < 2 {
        Err(RequestError::MissingArgument)
    } else {
        match recognize(args[1]) {
            Ok(command) => Ok(command),
            Err(_) => Err(RequestError::UnrecognizedCommand),
        }
    }
}

/// Decides which command the arguments of a process ask for.
///
/// The caller prints the command, or ends the process on an error: neither
/// error can be recovered from.
pub fn requested_command(args: &[String]) -> (r: Result<Commands, RequestError>)
    ensures
        r == requested(args.deep_view()),
        r is Ok ==> args@.len() >= 2 && args@[1]@ == r->Ok_0.spelling(),
        r == Err::<Commands, RequestError>(RequestError::MissingArgument) <==> args@.len() < 2,
{
    if args.len() < 2 {
        return Err(RequestError::MissingArgument);
    }
    match Commands::from_str(args[1].as_str()) {
        Ok(command) => Ok(command),
        Err(_) => Err(RequestError::UnrecognizedCommand),
    }
}

/// Only the second argument counts: two lists that each hold a second
/// argument, and the same one, ask for the same.
pub proof fn only_second_argument_counts(a: Seq<Seq<char>>, b: Seq<Seq<char>>)
    requires
        a.len() >= 2,
        b.len() >= 2,
        a[1] == b[1],
    ensures
        requested(a) == requested(b),
{
}

/// A list asks for a command exactly when its second argument is that
/// command's spelling.
pub proof fn requested_by_spelling(args: Seq<Seq<char>>, c: Commands)
    ensures
        requested(args) == Ok::<Commands, RequestError>(c) <==> args.len() >= 2 && args[1]
            == c.spelling(),
{
    if args.len() >= 2 {
        crate::parser::recognized_only_by_spelling(args[1], c);
    }
}

} // verus!
