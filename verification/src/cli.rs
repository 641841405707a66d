//! What the command line asks for.

use vstd::prelude::*;
use crate::text::same_text;

verus! {

/// What the tool does in one run.
#[derive(Clone, Copy, Debug, PartialEq, Eq, Structural)]
pub enum Command {
    /// Print the usage.
    Help,
    /// Read a configuration and generate the bindings.
    Generate,
}

/// The command that a subcommand and the help flag select: `generate`, or
/// `g` for short, generates, unless help was asked for; everything else
/// prints the usage.
pub open spec fn command_of(help_requested: bool, subcommand: Option<Seq<char>>) -> Command {
    match subcommand {
        Some(name) if !help_requested && (name == "generate"@ || name == "g"@) => Command::Generate,
        _ => Command::Help,
    }
}

/// The text of a subcommand, if there is one.
pub open spec fn text_of(subcommand: Option<&str>) -> Option<Seq<char>> {
    match subcommand {
        Some(name) => Some(name@),
        None => None,
    }
}

/// Selects the command of a run from the help flag and the subcommand.
pub fn select_command(help_requested: bool, subcommand: Option<&str>) -> (r: Command)
    ensures
        r == command_of(help_requested, text_of(subcommand)),
{
    if help_requested {
        return Command::Help;
    }
    match subcommand {
        Some(name) => {
            if same_text(name, "generate") || same_text(name, "g") {
                Command::Generate
            } else {
                Command::Help
            }
        },
        None => Command::Help,
    }
}

} // verus!
