//! The closed set of shell commands, with the name, the argument window and
//! the parameter text of each.

use crate::text::str_eq;
use vstd::prelude::*;
use vstd::string::*;

verus! {

/// A command of the shell. `help` and `man` name the same command.
#[derive(Clone, Copy, Debug, PartialEq, Eq, Structural)]
pub enum Command {
    GetData,
    SetData,
    ListChildren,
    Create,
    Delete,
    Exists,
    Disconnect,
    Connect,
    Help,
}

/// The command that `name` stands for, if any. Names are case-sensitive.
pub open spec fn command_named(name: Seq<char>) -> Option<Command> {
    if name == "get"@ {
        Some(Command::GetData)
    } else if name == "set"@ {
        Some(Command::SetData)
    } else if name == "ls"@ {
        Some(Command::ListChildren)
    } else if name == "create"@ {
        Some(Command::Create)
    } else if name == "rm"@ {
        Some(Command::Delete)
    } else if name == "exists"@ {
        Some(Command::Exists)
    } else if name == "disconnect"@ {
        Some(Command::Disconnect)
    } else if name == "connect"@ {
        Some(Command::Connect)
    } else if name == "help"@ || name == "man"@ {
        Some(Command::Help)
    } else {
        None
    }
}

/// What every arity error starts with; the command's parameter text follows.
pub open spec fn arity_prefix() -> Seq<char> {
    "Wrong number of arguments, expected parameters: "@
}

impl Command {
    /// The least number of arguments the command takes.
    pub open spec fn min_args(self) -> nat {
        match self {
            Command::GetData
            | Command::ListChildren
            | Command::Delete
            | Command::Exists
            | Command::Connect => 1,
            Command::SetData | Command::Create => 2,
            Command::Disconnect | Command::Help => 0,
        }
    }

    /// The greatest number of arguments the command takes.
    pub open spec fn max_args(self) -> nat {
        match self {
            Command::GetData | Command::ListChildren | Command::Delete | Command::Exists => 2,
            Command::SetData => 3,
            Command::Create => 4,
            Command::Connect | Command::Help => 1,
            Command::Disconnect => 0,
        }
    }

    /// Whether `argc` arguments fall inside the command's window.
    pub open spec fn accepts(self, argc: nat) -> bool {
        self.min_args() <= argc <= self.max_args()
    }

    /// Whether the command talks to the service, and so needs a live session.
    pub open spec fn needs_session(self) -> bool {
        match self {
            Command::GetData
            | Command::SetData
            | Command::ListChildren
            | Command::Create
            | Command::Delete
            | Command::Exists => true,
            Command::Disconnect | Command::Connect | Command::Help => false,
        }
    }

    /// The parameters of the command, as its arity error shows them.
    pub open spec fn params(self) -> Seq<char> {
        match self {
            Command::GetData | Command::ListChildren | Command::Exists => "<path> [watch]"@,
            Command::SetData => "<path> <data> [version]"@,
            Command::Create => "<path> <data> [ephemeral] [sequential]"@,
            Command::Delete => "<path> [version]"@,
            Command::Connect => "<hosts>"@,
            Command::Disconnect => ""@,
            Command::Help => "[cmd]"@,
        }
    }

    /// The line shown when the command gets a wrong number of arguments.
    pub open spec fn arity_error(self) -> Seq<char> {
        arity_prefix() + self.params()
    }

    /// Resolves a command name.
    pub fn resolve(name: &str) -> (found: Option<Command>)
        ensures
            found == command_named(name@),
    {
        if str_eq(name, "get") {
            Some(Command::GetData)
        } else if str_eq(name, "set") {
            Some(Command::SetData)
        } else if str_eq(name, "ls") {
            Some(Command::ListChildren)
        } else if str_eq(name, "create") {
            Some(Command::Create)
        } else if str_eq(name, "rm") {
            Some(Command::Delete)
        } else if str_eq(name, "exists") {
            Some(Command::Exists)
        } else if str_eq(name, "disconnect") {
            Some(Command::Disconnect)
        } else if str_eq(name, "connect") {
            Some(Command::Connect)
        } else if str_eq(name, "help") || str_eq(name, "man") {
            Some(Command::Help)
        } else {
            None
        }
    }

    /// The inclusive window of argument counts the command takes.
    pub fn arity(self) -> (window: (usize, usize))
        ensures
            window.0 == self.min_args(),
            window.1 == self.max_args(),
    {
        match self {
            Command::GetData | Command::ListChildren | Command::Delete | Command::Exists => (1, 2),
            Command::SetData => (2, 3),
            Command::Create => (2, 4),
            Command::Connect => (1, 1),
            Command::Disconnect => (0, 0),
            Command::Help => (0, 1),
        }
    }

    /// Whether the command needs a live session.
    pub fn requires_session(self) -> (needed: bool)
        ensures
            needed == self.needs_session(),
    {
        match self {
            Command::GetData
            | Command::SetData
            | Command::ListChildren
            | Command::Create
            | Command::Delete
            | Command::Exists => true,
            Command::Disconnect | Command::Connect | Command::Help => false,
        }
    }

    /// The parameter text of the command.
    pub fn usage(self) -> (text: &'static str)
        ensures
            text@ == self.params(),
    {
        match self {
            Command::GetData | Command::ListChildren | Command::Exists => "<path> [watch]",
            Command::SetData => "<path> <data> [version]",
            Command::Create => "<path> <data> [ephemeral] [sequential]",
            Command::Delete => "<path> [version]",
            Command::Connect => "<hosts>",
            Command::Disconnect => "",
            Command::Help => "[cmd]",
        }
    }

    /// Checks an argument count against the command's window: `None` where it
    /// fits, the arity error where it does not.
    pub fn check_args(self, argc: usize) -> (refusal: Option<String>)
        ensures
            self.accepts(argc as nat) <==> refusal is None,
            refusal matches Some(line) ==> line@ == self.arity_error(),
    {
        let (min, max) = self.arity();
        if argc < min || argc > max {
            let mut line = String::from_str("Wrong number of arguments, expected parameters: ");
            line.append(self.usage());
            Some(line)
        } else {
            None
        }
    }
}

} // verus!
