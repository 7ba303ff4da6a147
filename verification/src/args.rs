//! The argument resolver: turns the invocation arguments (excluding the
//! program name) into exactly one command, or rejects them.

use vstd::prelude::*;
use crate::error::LookupError;
use crate::output::{field_of, parse_output_field, OutputField};
use crate::text::str_eq;

verus! {

/// A repository lookup: the target name, used both as the search term and as
/// the exact-match key, paired with the field to print.
pub struct LookupRequest {
    pub query: String,
    pub field: OutputField,
}

/// What one invocation asks for.
pub enum Command {
    Lookup(LookupRequest),
    Help,
    Version,
}

/// Resolve the invocation arguments into a command. A pure parse with no
/// side effects:
///
/// - one argument `-h`/`--help` asks for help, `-v`/`--version` for the
///   version, and any other single argument is a lookup of that name with
///   the default `full-name` field;
/// - two arguments name an output field and then the query, and fail with
///   the offending token when the first is no known field token;
/// - zero arguments, or more than two, are invalid.
pub fn parse_arguments(args: &Vec<String>) -> (r: Result<Command, LookupError>)
    ensures
        (args@.len() == 0 || args@.len() > 2) ==> (r matches Err(
            LookupError::InvalidArguments(None),
        )),
        args@.len() == 1 ==> ({
            let a = args@[0]@;
            if a == "-h"@ || a == "--help"@ {
                r matches Ok(Command::Help)
            } else if a == "-v"@ || a == "--version"@ {
                r matches Ok(Command::Version)
            } else {
                r matches Ok(Command::Lookup(req)) && req.query@ == a && req.field
                    == OutputField::FullName
            }
        }),
        args@.len() == 2 ==> (match field_of(args@[0]@) {
            Some(f) => r matches Ok(Command::Lookup(req)) && req.query@ == args@[1]@ && req.field
                == f,
            None => r matches Err(LookupError::InvalidArguments(Some(t))) && t@ == args@[0]@,
        }),
{
    if args.len() == 1 {
        let a: &str = args[0].as_str();
        if str_eq(a, "-h") || str_eq(a, "--help") {
            return Ok(Command::Help);
        }
        if str_eq(a, "-v") || str_eq(a, "--version") {
            return Ok(Command::Version);
        }
        Ok(
            Command::Lookup(
                LookupRequest { query: args[0].clone(), field: OutputField::FullName },
            ),
        )
    } else if args.len() == 2 {
        match parse_output_field(args[0].as_str()) {
            Some(f) => Ok(Command::Lookup(LookupRequest { query: args[1].clone(), field: f })),
            None => Err(LookupError::InvalidArguments(Some(args[0].clone()))),
        }
    } else {
        Err(LookupError::InvalidArguments(None))
    }
}

} // verus!
