//! The command-line surface's decision: which of the program's modes a
//! parsed set of flags selects. Parsing itself is the surrounding process's
//! work; the precedence between the flags is decided here.

use vstd::prelude::*;

verus! {

/// The parsed command-line flags.
#[derive(Debug, Clone)]
pub struct Args {
    /// Run the listener as a daemon.
    pub daemon: bool,
    /// List the installed color schemes.
    pub list: bool,
    /// Apply the Dark theme with this scheme once, and remember it.
    pub dark: Option<String>,
    /// Apply the Light theme with this scheme once, and remember it.
    pub light: Option<String>,
}

/// The program's modes.
#[derive(Clone, Copy, Debug, PartialEq, Eq, Structural)]
pub enum CommandAction {
    /// Watch the settings bus until it ends.
    Daemon,
    /// Print the installed scheme names.
    List,
    /// One-shot apply of the Dark theme's scheme.
    SetDark,
    /// One-shot apply of the Light theme's scheme.
    SetLight,
    /// No flag was given; do nothing.
    NoOp,
}

/// Which mode a set of flags selects: the daemon flag wins, then listing,
/// then the dark choice, then the light choice.
pub open spec fn action_spec(a: &Args) -> CommandAction {
    if a.daemon {
        CommandAction::Daemon
    } else if a.list {
        CommandAction::List
    } else if a.dark is Some {
        CommandAction::SetDark
    } else if a.light is Some {
        CommandAction::SetLight
    } else {
        CommandAction::NoOp
    }
}

impl Args {
    /// The mode these flags select.
    pub fn action(&self) -> (r: CommandAction)
        ensures
            r == action_spec(self),
    {
        if self.daemon {
            CommandAction::Daemon
        } else if self.list {
            CommandAction::List
        } else if self.dark.is_some() {
            CommandAction::SetDark
        } else if self.light.is_some() {
            CommandAction::SetLight
        } else {
            CommandAction::NoOp
        }
    }
}

} // verus!
