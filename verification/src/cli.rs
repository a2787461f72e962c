//! Command-line dispatch: what the first argument asks the program to do.

use vstd::prelude::*;
use crate::text::same_text;

verus! {

/// What a start of the program was asked to do.
#[derive(Debug, Clone, Copy, PartialEq, Eq, Structural)]
pub enum CliCommand {
    /// No argument: open the graphical application.
    RunGui,
    /// `-h` or `--help`: print the help text.
    ShowHelp,
    /// `-V` or `--version`: print the version banner.
    ShowVersion,
    /// `--verify`: run the self-verification diagnostics.
    Verify,
    /// Any other argument: report it and exit with a failure.
    Unrecognized,
}

/// The command named by the first argument, if any.
pub open spec fn spec_cli_command(first_arg: Option<Seq<char>>) -> CliCommand {
    match first_arg {
        None => CliCommand::RunGui,
        Some(a) => if a == "-h"@ || a == "--help"@ {
            CliCommand::ShowHelp
        } else if a == "-V"@ || a == "--version"@ {
            CliCommand::ShowVersion
        } else if a == "--verify"@ {
            CliCommand::Verify
        } else {
            CliCommand::Unrecognized
        },
    }
}

/// Decides what to do from the first command-line argument.
pub fn cli_command(first_arg: Option<&str>) -> (r: CliCommand)
    ensures
        r == spec_cli_command(
            match first_arg {
                Some(a) => Some(a@),
                None => None,
            },
        ),
{
    match first_arg {
        None => CliCommand::RunGui,
        Some(a) => {
            if same_text(a, "-h") || same_text(a, "--help") {
                CliCommand::ShowHelp
            } else if same_text(a, "-V") || same_text(a, "--version") {
                CliCommand::ShowVersion
            } else if same_text(a, "--verify") {
                CliCommand::Verify
            } else {
                CliCommand::Unrecognized
            }
        },
    }
}

} // verus!
