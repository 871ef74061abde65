//! The command line: `configure <provider>` and `get <provider> <city> [days]`.
use vstd::prelude::*;
use crate::text::{parse_i32, parsed_i32, trim, trimmed};

verus! {

/// A positional argument that the command needs is missing.
#[derive(Clone, Copy, Debug, PartialEq, Eq, Structural)]
pub enum ArgError {
    MissingCommand,
    MissingProvider,
    MissingCity,
}

#[derive(Debug)]
pub enum Command {
    /// Store an API key, read afterwards, for `provider`.
    Configure { provider: String },
    /// Fetch the weather in `city` from `provider`; `days_unreadable` tells
    /// that a days argument was given but is no number, and that `days` is 0
    /// for that reason.
    Get { provider: String, city: String, days: i32, days_unreadable: bool },
    /// A command that the program does not know.
    Unknown { name: String },
}

/// The days argument, the fifth word, read as `(days, unreadable)`; 0 where
/// it is absent or no number.
pub open spec fn days_arg(args: Seq<String>) -> (int, bool) {
    if args.len() < 5 {
        (0, false)
    } else {
        match parsed_i32(args[4]@) {
            Some(v) => (v, false),
            None => (0, true),
        }
    }
}

/// What a command line (the program's name first) asks for.
pub open spec fn command_of(args: Seq<String>, c: Command) -> bool {
    let name = trimmed(args[1]@);
    if name == "configure"@ {
        c matches Command::Configure { provider } && provider@ == args[2]@
    } else if name == "get"@ {
        c matches Command::Get { provider, city, days, days_unreadable } && provider@ == args[2]@
            && city@ == args[3]@ && (days as int, days_unreadable) == days_arg(args)
    } else {
        c matches Command::Unknown { name } && name@ == args[1]@
    }
}

/// Which argument the command line lacks, if any.
pub open spec fn missing_arg(args: Seq<String>) -> Option<ArgError> {
    if args.len() < 2 {
        Some(ArgError::MissingCommand)
    } else if trimmed(args[1]@) == "configure"@ {
        if args.len() < 3 {
            Some(ArgError::MissingProvider)
        } else {
            None
        }
    } else if trimmed(args[1]@) == "get"@ {
        if args.len() < 3 {
            Some(ArgError::MissingProvider)
        } else if args.len() < 4 {
            Some(ArgError::MissingCity)
        } else {
            None
        }
    } else {
        None
    }
}

/// The provider name, the third word.
pub fn provider_from_args(args: &Vec<String>) -> (r: Option<String>)
    ensures
        r is Some <==> args@.len() >= 3,
        r matches Some(p) ==> p@ == args@[2]@,
{
    if args.len() < 3 {
        None
    } else {
        Some(args[2].clone())
    }
}

/// The city, the fourth word.
pub fn city_from_args(args: &Vec<String>) -> (r: Option<String>)
    ensures
        r is Some <==> args@.len() >= 4,
        r matches Some(c) ==> c@ == args@[3]@,
{
    if args.len() < 4 {
        None
    } else {
        Some(args[3].clone())
    }
}

/// The days argument and whether it was given but could not be read.
pub fn days_from_args(args: &Vec<String>) -> (r: (i32, bool))
    ensures
        (r.0 as int, r.1) == days_arg(args@),
{
    if args.len() < 5 {
        return (0, false);
    }
    match parse_i32(args[4].as_str()) {
        Some(v) => (v, false),
        None => (0, true),
    }
}

/// Reads a command line, the program's name first.
pub fn parse_command(args: &Vec<String>) -> (r: Result<Command, ArgError>)
    ensures
        r matches Err(e) ==> missing_arg(args@) == Some(e),
        r matches Ok(c) ==> missing_arg(args@) is None && command_of(args@, c),
        missing_arg(args@) is None ==> r is Ok,
{
    if args.len() < 2 {
        return Err(ArgError::MissingCommand);
    }
    let name = trim(args[1].as_str()).to_owned();
    if name == String::from_str("configure") {
        match provider_from_args(args) {
            Some(provider) => Ok(Command::Configure { provider }),
            None => Err(ArgError::MissingProvider),
        }
    } else if name == String::from_str("get") {
        let provider = match provider_from_args(args) {
            Some(p) => p,
            None => {
                return Err(ArgError::MissingProvider);
            },
        };
        let city = match city_from_args(args) {
            Some(c) => c,
            None => {
                return Err(ArgError::MissingCity);
            },
        };
        let (days, days_unreadable) = days_from_args(args);
        Ok(Command::Get { provider, city, days, days_unreadable })
    } else {
        Ok(Command::Unknown { name: args[1].clone() })
    }
}

} // verus!
