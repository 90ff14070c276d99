//! The help registry: one entry per command that has a manual page, the
//! one-line listing of all of them, and the full page of one.

use crate::command::{command_named, Command};
use crate::text::string_views;
use vstd::prelude::*;
use vstd::string::*;

verus! {

/// `s` between the escape sequences that switch bold white on and all styles
/// off.
pub open spec fn bold(s: Seq<char>) -> Seq<char> {
    "\x1b[1;37m"@ + s + "\x1b[0m"@
}

/// `ansi_term`'s `Colour::White.bold().paint(text)`, written out through its
/// `Display`: the style's prefix (`ESC [ 1 ; 37 m`), the text unchanged, and
/// the reset sequence (`ESC [ 0 m`).
#[verifier::external_body]
fn paint_bold(text: &str) -> (painted: String)
    ensures
        painted@ == bold(text@),
{
    ansi_term::Colour::White.bold().paint(text).to_string()
}

/// The manual entry of one command.
#[derive(Clone, Debug, PartialEq, Eq)]
pub struct CmdHelp {
    pub name: String,
    pub desc: String,
    pub synopsis: String,
    pub options: String,
    pub examples: String,
}

/// A manual entry, as contracts see it.
pub struct HelpView {
    pub name: Seq<char>,
    pub desc: Seq<char>,
    pub synopsis: Seq<char>,
    pub options: Seq<char>,
    pub examples: Seq<char>,
}

impl HelpView {
    /// The name and the description, as the head of the manual page shows them.
    pub open spec fn name_desc(self) -> Seq<char> {
        self.name + " - "@ + self.desc
    }

    /// The name followed by the parameters.
    pub open spec fn synopsis_string(self) -> Seq<char> {
        self.name + " "@ + self.synopsis
    }

    /// The one line that the listing of all commands gives to the entry.
    pub open spec fn summary(self) -> Seq<char> {
        bold(self.name) + " - "@ + self.synopsis
    }

    /// The manual page: four sections, each with a bold title and an indented
    /// body, an empty line between two sections.
    pub open spec fn full(self) -> Seq<char> {
        section("NAME"@, self.name_desc()) + "\n"@ + section("SYNOPSIS"@, self.synopsis_string())
            + "\n"@ + section("OPTIONS"@, self.options) + "\n"@ + section(
            "EXAMPLES"@,
            self.examples,
        )
    }
}

/// One section of a manual page.
pub open spec fn section(title: Seq<char>, body: Seq<char>) -> Seq<char> {
    bold(title) + "\n\t"@ + body + "\n"@
}

impl View for CmdHelp {
    type V = HelpView;

    open spec fn view(&self) -> HelpView {
        HelpView {
            name: self.name@,
            desc: self.desc@,
            synopsis: self.synopsis@,
            options: self.options@,
            examples: self.examples@,
        }
    }
}

/// The name under which the registry lists `cmd`.
pub open spec fn command_name(cmd: Command) -> Seq<char> {
    match cmd {
        Command::GetData => "get"@,
        Command::SetData => "set"@,
        Command::ListChildren => "ls"@,
        Command::Create => "create"@,
        Command::Delete => "rm"@,
        Command::Exists => "exists"@,
        Command::Disconnect => "disconnect"@,
        Command::Connect => "connect"@,
        Command::Help => "help"@,
    }
}

/// What `cmd` does, in one sentence. The help command itself has none.
pub open spec fn command_desc(cmd: Command) -> Seq<char> {
    match cmd {
        Command::GetData => "Gets the znode's value"@,
        Command::SetData => "Sets the znode's value"@,
        Command::ListChildren => "Lists a znode's children"@,
        Command::Create => "Creates a znode with the given value"@,
        Command::Delete => "Delete a znode"@,
        Command::Exists => "Gets the znode's stat information"@,
        Command::Disconnect => "Disconnects from the server (closing the session)"@,
        Command::Connect => "Connects to one of the given hosts, creating a session"@,
        Command::Help => ""@,
    }
}

/// The manual entry of `cmd`.
pub open spec fn entry_of(cmd: Command) -> HelpView {
    HelpView {
        name: command_name(cmd),
        desc: command_desc(cmd),
        synopsis: cmd.params(),
        options: ""@,
        examples: ""@,
    }
}

/// The manual entry registered under `name`. Every command but the help
/// command has one, under its own name.
pub open spec fn help_entry(name: Seq<char>) -> Option<HelpView> {
    match command_named(name) {
        Some(cmd) => if cmd == Command::Help {
            None
        } else {
            Some(entry_of(cmd))
        },
        None => None,
    }
}

/// The commands that have a manual entry, in the order of their names.
pub open spec fn listed() -> Seq<Command> {
    seq![
        Command::Connect,
        Command::Create,
        Command::Disconnect,
        Command::Exists,
        Command::GetData,
        Command::ListChildren,
        Command::Delete,
        Command::SetData,
    ]
}

/// The listing of all commands: one summary line for each.
pub open spec fn help_all_lines() -> Seq<Seq<char>> {
    Seq::new(listed().len(), |i: int| entry_of(listed()[i]).summary())
}

/// What asking for the manual page of an unregistered name yields.
pub open spec fn no_entry_text(name: Seq<char>) -> Seq<char> {
    "Unknown command: "@ + name + "."@
}

/// The text shown for `help <name>`.
pub open spec fn help_full_text(name: Seq<char>) -> Seq<char> {
    match help_entry(name) {
        Some(entry) => entry.full(),
        None => no_entry_text(name),
    }
}

impl CmdHelp {
    /// Makes an entry of its five texts.
    pub fn new(name: &str, desc: &str, synopsis: &str, options: &str, examples: &str) -> (entry:
        CmdHelp)
        ensures
            entry@ == (HelpView {
                name: name@,
                desc: desc@,
                synopsis: synopsis@,
                options: options@,
                examples: examples@,
            }),
    {
        CmdHelp {
            name: String::from_str(name),
            desc: String::from_str(desc),
            synopsis: String::from_str(synopsis),
            options: String::from_str(options),
            examples: String::from_str(examples),
        }
    }

    /// The name and the description, joined by ` - `.
    pub fn name_desc(&self) -> (line: String)
        ensures
            line@ == self@.name_desc(),
    {
        let mut line = self.name.clone();
        line.append(" - ");
        line.append(self.desc.as_str());
        line
    }

    /// The name and the parameters, joined by a space.
    pub fn synopsis_string(&self) -> (line: String)
        ensures
            line@ == self@.synopsis_string(),
    {
        let mut line = self.name.clone();
        line.append(" ");
        line.append(self.synopsis.as_str());
        line
    }

    /// The entry's line in the listing of all commands.
    pub fn summary(&self) -> (line: String)
        ensures
            line@ == self@.summary(),
    {
        let mut line = paint_bold(self.name.as_str());
        line.append(" - ");
        line.append(self.synopsis.as_str());
        line
    }

    /// The manual page of the entry.
    pub fn full(&self) -> (page: String)
        ensures
            page@ == self@.full(),
    {
        let name_desc = self.name_desc();
        let synopsis = self.synopsis_string();
        let mut page = write_section("NAME", name_desc.as_str());
        page.append("\n");
        page.append(write_section("SYNOPSIS", synopsis.as_str()).as_str());
        page.append("\n");
        page.append(write_section("OPTIONS", self.options.as_str()).as_str());
        page.append("\n");
        page.append(write_section("EXAMPLES", self.examples.as_str()).as_str());
        page
    }

    /// The entry of a command.
    pub fn of(cmd: Command) -> (entry: CmdHelp)
        ensures
            entry@ == entry_of(cmd),
    {
        let name = match cmd {
            Command::GetData => "get",
            Command::SetData => "set",
            Command::ListChildren => "ls",
            Command::Create => "create",
            Command::Delete => "rm",
            Command::Exists => "exists",
            Command::Disconnect => "disconnect",
            Command::Connect => "connect",
            Command::Help => "help",
        };
        let desc = match cmd {
            Command::GetData => "Gets the znode's value",
            Command::SetData => "Sets the znode's value",
            Command::ListChildren => "Lists a znode's children",
            Command::Create => "Creates a znode with the given value",
            Command::Delete => "Delete a znode",
            Command::Exists => "Gets the znode's stat information",
            Command::Disconnect => "Disconnects from the server (closing the session)",
            Command::Connect => "Connects to one of the given hosts, creating a session",
            Command::Help => "",
        };
        CmdHelp::new(name, desc, cmd.usage(), "", "")
    }

    /// Looks `name` up in the registry.
    pub fn lookup(name: &str) -> (found: Option<CmdHelp>)
        ensures
            match help_entry(name@) {
                Some(entry) => found matches Some(e) && e@ == entry,
                None => found is None,
            },
    {
        match Command::resolve(name) {
            Some(Command::Help) => None,
            Some(cmd) => Some(CmdHelp::of(cmd)),
            None => None,
        }
    }
}

/// Writes one section of a manual page.
fn write_section(title: &str, body: &str) -> (text: String)
    ensures
        text@ == section(title@, body@),
{
    let mut text = paint_bold(title);
    text.append("\n\t");
    text.append(body);
    text.append("\n");
    text
}

/// The listing of all commands, in the order of their names.
pub fn help_all() -> (lines: Vec<String>)
    ensures
        string_views(lines@) == help_all_lines(),
{
    let mut order: Vec<Command> = Vec::new();
    order.push(Command::Connect);
    order.push(Command::Create);
    order.push(Command::Disconnect);
    order.push(Command::Exists);
    order.push(Command::GetData);
    order.push(Command::ListChildren);
    order.push(Command::Delete);
    order.push(Command::SetData);
    assert(order@ =~= listed());
    let mut lines: Vec<String> = Vec::new();
    let mut i: usize = 0;
    while i < order.len()
        invariant
            i <= order.len(),
            order@ == listed(),
            lines.len() == i,
            forall|j: int|
                0 <= j < i ==> (#[trigger] lines@[j])@ == entry_of(listed()[j]).summary(),
        decreases order.len() - i,
    {
        let entry = CmdHelp::of(order[i]);
        lines.push(entry.summary());
        i = i + 1;
    }
    assert(string_views(lines@) =~= help_all_lines());
    lines
}

/// The manual page registered under `name`, or the notice that there is none.
pub fn help_full(name: &str) -> (text: String)
    ensures
        text@ == help_full_text(name@),
{
    match CmdHelp::lookup(name) {
        Some(entry) => entry.full(),
        None => {
            let mut text = String::from_str("Unknown command: ");
            text.append(name);
            text.append(".");
            text
        },
    }
}

} // verus!
