//! Command-line argument parsing for the Zicade binary: a pure function over
//! the process arguments (with `argv[0]` stripped).

use crate::text::{chars_of, same_text};
use vstd::prelude::*;
use vstd::string::StringExecFns;

verus! {

/// The default Windows service name used when `--name` is omitted.
pub const DEFAULT_SERVICE_NAME: &'static str = "Zicade";

/// A parsed top-level command.
#[derive(Debug, Clone, PartialEq, Eq)]
pub enum Command {
    /// Console mode (the default): serve until Ctrl-C, with an optional explicit
    /// config path.
    Run { config_path: Option<String> },
    /// Run under the Service Control Manager (`service run`).
    ServiceRun,
    /// Install the Windows service (`service install [--name NAME]`).
    ServiceInstall { name: Option<String> },
    /// Uninstall the Windows service (`service uninstall [--name NAME]`).
    ServiceUninstall { name: Option<String> },
    /// Print usage text (`--help`/`-h`/`help`).
    Help,
    /// An unrecognized command; carries the offending token(s).
    Unknown(String),
}

/// The abstract value of a [`Command`].
pub enum CommandView {
    Run(Option<Seq<char>>),
    ServiceRun,
    ServiceInstall(Option<Seq<char>>),
    ServiceUninstall(Option<Seq<char>>),
    Help,
    Unknown(Seq<char>),
}

pub open spec fn opt_string_view(o: Option<String>) -> Option<Seq<char>> {
    match o {
        Some(s) => Some(s@),
        None => None,
    }
}

impl View for Command {
    type V = CommandView;

    open spec fn view(&self) -> CommandView {
        match self {
            Command::Run { config_path } => CommandView::Run(opt_string_view(*config_path)),
            Command::ServiceRun => CommandView::ServiceRun,
            Command::ServiceInstall { name } => CommandView::ServiceInstall(opt_string_view(*name)),
            Command::ServiceUninstall { name } => CommandView::ServiceUninstall(opt_string_view(*name)),
            Command::Help => CommandView::Help,
            Command::Unknown(t) => CommandView::Unknown(t@),
        }
    }
}

/// The text of each argument.
pub open spec fn arg_views(args: Seq<String>) -> Seq<Seq<char>> {
    args.map_values(|s: String| s@)
}

/// The argument after the first `--name` from index `i` on, if any.
pub open spec fn name_after(args: Seq<Seq<char>>, i: int) -> Option<Seq<char>>
    decreases args.len() - i,
{
    if 0 <= i < args.len() {
        if args[i] == "--name"@ {
            if i + 1 < args.len() {
                Some(args[i + 1])
            } else {
                None
            }
        } else {
            name_after(args, i + 1)
        }
    } else {
        None
    }
}

/// The command the arguments ask for.
pub open spec fn command_of(args: Seq<Seq<char>>) -> CommandView {
    if args.len() == 0 {
        CommandView::Run(None)
    } else {
        let first = args[0];
        if first == "--help"@ || first == "-h"@ || first == "help"@ {
            CommandView::Help
        } else if first == "run"@ {
            CommandView::Run(if args.len() > 1 { Some(args[1]) } else { None })
        } else if first == "service"@ {
            if args.len() < 2 {
                CommandView::Unknown("service"@)
            } else if args[1] == "run"@ {
                CommandView::ServiceRun
            } else if args[1] == "install"@ {
                CommandView::ServiceInstall(name_after(args, 2))
            } else if args[1] == "uninstall"@ {
                CommandView::ServiceUninstall(name_after(args, 2))
            } else {
                CommandView::Unknown("service "@ + args[1])
            }
        } else if first.len() > 0 && first[0] == '-' {
            // A leading flag we do not recognize is an error...
            CommandView::Unknown(first)
        } else {
            // ...but any other bare token is an explicit config path.
            CommandView::Run(Some(first))
        }
    }
}

/// Scan `args[from..]` for `--name NAME`, returning the value if present.
fn parse_name(args: &[String], from: usize) -> (r: Option<String>)
    requires
        from <= args@.len(),
    ensures
        opt_string_view(r) == name_after(arg_views(args@), from as int),
{
    let ghost av = arg_views(args@);
    let mut i = from;
    while i < args.len()
        invariant
            from <= i <= args@.len(),
            av == arg_views(args@),
            name_after(av, from as int) == name_after(av, i as int),
        decreases args.len() - i,
    {
        if same_text(args[i].as_str(), "--name") {
            if i + 1 < args.len() {
                return Some(args[i + 1].clone());
            } else {
                return None;
            }
        }
        i = i + 1;
    }
    None
}

/// Parse `args` (process args with `argv[0]` stripped) into a [`Command`].
pub fn parse_args(args: &[String]) -> (c: Command)
    ensures
        c@ == command_of(arg_views(args@)),
{
    if args.len() == 0 {
        return Command::Run { config_path: None };
    }
    let first = args[0].as_str();
    if same_text(first, "--help") || same_text(first, "-h") || same_text(first, "help") {
        return Command::Help;
    }
    if same_text(first, "run") {
        let config_path = if args.len() > 1 {
            Some(args[1].clone())
        } else {
            None
        };
        return Command::Run { config_path };
    }
    if same_text(first, "service") {
        if args.len() < 2 {
            return Command::Unknown(String::from_str("service"));
        }
        let sub = args[1].as_str();
        if same_text(sub, "run") {
            return Command::ServiceRun;
        }
        if same_text(sub, "install") {
            return Command::ServiceInstall { name: parse_name(args, 2) };
        }
        if same_text(sub, "uninstall") {
            return Command::ServiceUninstall { name: parse_name(args, 2) };
        }
        let mut token = String::from_str("service ");
        token.append(sub);
        return Command::Unknown(token);
    }
    let chars = chars_of(first);
    if chars.len() > 0 && chars[0] == '-' {
        return Command::Unknown(args[0].clone());
    }
    Command::Run { config_path: Some(args[0].clone()) }
}

} // verus!
