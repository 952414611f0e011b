//! Command-line dispatch: which mode the process runs in, decided from its
//! arguments. The caller reads the arguments and performs the chosen mode;
//! the decision itself is verified here.

use vstd::prelude::*;
use crate::strfmt::str_eq;

verus! {

/// What the process should do, given its command line.
pub enum CliCommand {
    /// No arguments: start the interactive application.
    RunGui,
    /// Print usage.
    Help,
    /// Print the version.
    Version,
    /// One argument that is no known option; usage should follow.
    UnknownOption(String),
    /// Handle the approval request in the named file.
    McpRequest(String),
    /// Run as a relay client against the given address.
    WsClientMode(String),
    /// Arguments in no recognized shape; usage should follow.
    Invalid,
}

/// The command the argument list selects. `args[0]` is the program name;
/// one argument selects help, version or an unknown option; two or more
/// select the approval-request or relay-client mode by their flag.
pub open spec fn spec_cli_command(args: Seq<Seq<char>>) -> CliCommandView {
    if args.len() == 1 {
        CliCommandView::RunGui
    } else if args.len() == 2 {
        if args[1] == "--help"@ || args[1] == "-h"@ {
            CliCommandView::Help
        } else if args[1] == "--version"@ || args[1] == "-v"@ {
            CliCommandView::Version
        } else {
            CliCommandView::UnknownOption(args[1])
        }
    } else if args.len() >= 3 {
        if args[1] == "--mcp-request"@ {
            CliCommandView::McpRequest(args[2])
        } else if args[1] == "--ws-client"@ {
            CliCommandView::WsClientMode(args[2])
        } else {
            CliCommandView::Invalid
        }
    } else {
        CliCommandView::Invalid
    }
}

/// The mathematical shape of a [`CliCommand`].
pub enum CliCommandView {
    RunGui,
    Help,
    Version,
    UnknownOption(Seq<char>),
    McpRequest(Seq<char>),
    WsClientMode(Seq<char>),
    Invalid,
}

impl View for CliCommand {
    type V = CliCommandView;

    open spec fn view(&self) -> CliCommandView {
        match self {
            CliCommand::RunGui => CliCommandView::RunGui,
            CliCommand::Help => CliCommandView::Help,
            CliCommand::Version => CliCommandView::Version,
            CliCommand::UnknownOption(s) => CliCommandView::UnknownOption(s@),
            CliCommand::McpRequest(s) => CliCommandView::McpRequest(s@),
            CliCommand::WsClientMode(s) => CliCommandView::WsClientMode(s@),
            CliCommand::Invalid => CliCommandView::Invalid,
        }
    }
}

/// Decides the process mode from its argument list.
pub fn parse_cli(args: &Vec<String>) -> (r: CliCommand)
    ensures
        r@ == spec_cli_command(crate::strfmt::str_views(args@)),
{
    proof {
        assert(forall|i: int|
            0 <= i < args@.len() ==> crate::strfmt::str_views(args@)[i] == args@[i]@);
    }
    if args.len() == 1 {
        CliCommand::RunGui
    } else if args.len() == 2 {
        let a = &args[1];
        if str_eq(a.as_str(), "--help") || str_eq(a.as_str(), "-h") {
            CliCommand::Help
        } else if str_eq(a.as_str(), "--version") || str_eq(a.as_str(), "-v") {
            CliCommand::Version
        } else {
            CliCommand::UnknownOption(a.clone())
        }
    } else if args.len() >= 3 {
        let a = &args[1];
        if str_eq(a.as_str(), "--mcp-request") {
            CliCommand::McpRequest(args[2].clone())
        } else if str_eq(a.as_str(), "--ws-client") {
            CliCommand::WsClientMode(args[2].clone())
        } else {
            CliCommand::Invalid
        }
    } else {
        CliCommand::Invalid
    }
}

} // verus!
