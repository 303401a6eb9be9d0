//! The command-line grammar of the `nanomiddleclick` program.
use vstd::prelude::*;

use crate::text::str_eq;

verus! {

/// What the program was asked to do.
#[derive(Clone, Copy, Debug, PartialEq, Eq, Structural)]
pub enum Command {
    /// Run the daemon in the foreground, logging verbosely with `-v`.
    Run { verbose: bool },
    /// Install and load the launch agent.
    DaemonOn,
    /// Unload and remove the launch agent.
    DaemonOff,
}

/// The usage line printed for arguments that are not understood.
pub const USAGE: &'static str = "usage: nanomiddleclick [-v] | nanomiddleclick daemon <on|off>";

/// The command named by the arguments (program name excluded): none runs
/// the daemon, `-v` runs it verbosely, `daemon on` and `daemon off` manage
/// the launch agent; anything else is a usage error.
pub open spec fn command_for(args: Seq<Seq<char>>) -> Option<Command> {
    if args.len() == 0 {
        Some(Command::Run { verbose: false })
    } else if args.len() == 1 && args[0] == "-v"@ {
        Some(Command::Run { verbose: true })
    } else if args.len() == 2 && args[0] == "daemon"@ && args[1] == "on"@ {
        Some(Command::DaemonOn)
    } else if args.len() == 2 && args[0] == "daemon"@ && args[1] == "off"@ {
        Some(Command::DaemonOff)
    } else {
        None
    }
}

/// The arguments as character sequences.
pub open spec fn arg_texts(args: Seq<String>) -> Seq<Seq<char>> {
    args.map_values(|a: String| a@)
}

/// The usage line.
pub fn usage() -> (r: &'static str)
    ensures
        r@ == USAGE@,
{
    USAGE
}

/// Parses the program's arguments (program name excluded); a usage error
/// carries the usage line.
pub fn parse_args(args: Vec<String>) -> (r: Result<Command, String>)
    ensures
        match command_for(arg_texts(args@)) {
            Some(c) => r == Ok::<Command, String>(c),
            None => r matches Err(e) && e@ == USAGE@,
        },
{
    let ghost view = arg_texts(args@);
    assert(view.len() == args.len());
    if args.len() == 0 {
        return Ok(Command::Run { verbose: false });
    }
    assert(view[0] == args[0]@);
    if args.len() == 1 {
        if str_eq(args[0].as_str(), "-v") {
            return Ok(Command::Run { verbose: true });
        }
        return Err(usage().to_owned());
    }
    if args.len() == 2 && str_eq(args[0].as_str(), "daemon") {
        assert(view[1] == args[1]@);
        if str_eq(args[1].as_str(), "on") {
            return Ok(Command::DaemonOn);
        } else if str_eq(args[1].as_str(), "off") {
            proof {
                reveal_strlit("on");
                reveal_strlit("off");
            }
            return Ok(Command::DaemonOff);
        }
        return Err(usage().to_owned());
    }
    Err(usage().to_owned())
}

} // verus!
