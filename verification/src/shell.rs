//! The shell itself: the connection state and the dispatcher that turns one
//! input line into the next thing to do.
//!
//! The shell performs no input or output. It owns the session handle, of a
//! type `S` that it never looks into, and answers each line with an
//! [`Action`]: the caller prints, calls the service, or opens and closes
//! sessions as the action says, and hands the outcome back.

use crate::command::{command_named, Command};
use crate::help::{help_all, help_all_lines, help_full, help_full_text};
use crate::parse::{is_true_text, parse_flag, parse_version, version_of, ANY_VERSION};
use crate::service::{mode_of, resolve_mode, Request, RequestView};
use crate::text::{string_views, tokenize, tokens, views};
use crate::zk::{error_name, open_acl, zk_error_name};
use vstd::prelude::*;
use vstd::string::*;
use vstd::utf8::*;

verus! {

/// The session timeout, in seconds, that every connect asks for.
pub const SESSION_TIMEOUT_SECS: u64 = 5;

/// The state of the shell. At most one session is live at any time: the one
/// held here.
pub struct Shell<S> {
    hosts: String,
    session: Option<S>,
    session_timeout: u64,
    default_acl: Vec<zookeeper::Acl>,
}

/// The state of the shell, as contracts see it.
pub struct ShellView<S> {
    /// The hosts the shell was started with; empty if none.
    pub hosts: Seq<char>,
    /// The live session, if any.
    pub session: Option<S>,
    /// The timeout handed to every connect, in seconds.
    pub session_timeout: u64,
    /// The access-control list given to every node the shell creates.
    pub default_acl: Seq<zookeeper::Acl>,
}

/// What the caller has to do next.
#[derive(Debug, PartialEq)]
pub enum Action<S> {
    /// Nothing: the line held no token.
    Idle,
    /// Print these lines. No call to the service is made.
    Say(Vec<String>),
    /// Perform the request on the live session and show the reply.
    Call(Request),
    /// Close `stale` if there is one; then print `notice`; then open a
    /// session to `hosts` with the timeout, and report how that went.
    Open { stale: Option<S>, hosts: String, timeout_secs: u64, notice: String },
    /// Close this session. The shell has let go of it already.
    Close(S),
}

/// An action, as contracts see it.
pub enum ActionView<S> {
    Idle,
    Say(Seq<Seq<char>>),
    Call(RequestView),
    Open { stale: Option<S>, hosts: Seq<char>, timeout_secs: u64, notice: Seq<char> },
    Close(S),
}

impl<S> ActionView<S> {
    /// Whether the action has the caller call the service on the live session.
    pub open spec fn is_remote(self) -> bool {
        self is Call
    }

    /// Whether the action has the caller close a session.
    pub open spec fn closes(self, session: S) -> bool {
        match self {
            ActionView::Close(s) => s == session,
            ActionView::Open { stale, .. } => stale == Some(session),
            _ => false,
        }
    }
}

impl<S> View for Action<S> {
    type V = ActionView<S>;

    open spec fn view(&self) -> ActionView<S> {
        match *self {
            Action::Idle => ActionView::Idle,
            Action::Say(lines) => ActionView::Say(string_views(lines@)),
            Action::Call(request) => ActionView::Call(request@),
            Action::Open { stale, hosts, timeout_secs, notice } => ActionView::Open {
                stale,
                hosts: hosts@,
                timeout_secs,
                notice: notice@,
            },
            Action::Close(session) => ActionView::Close(session),
        }
    }
}

/// The line shown when a command needs a session and there is none.
pub open spec fn not_connected_text() -> Seq<char> {
    "Not connected."@
}

/// The line shown for a command name that the shell does not know.
pub open spec fn unknown_command_text(name: Seq<char>) -> Seq<char> {
    "Unknown command: "@ + name
}

/// The line shown before a session to `hosts` is opened.
pub open spec fn connecting_text(hosts: Seq<char>) -> Seq<char> {
    "Connecting to "@ + hosts + "..."@
}

/// The flag at position `i` of `args`: false where there is no such argument.
pub open spec fn flag_at(args: Seq<Seq<char>>, i: int) -> bool {
    i < args.len() && is_true_text(args[i])
}

/// The version at position `i` of `args`: the one that matches any where
/// there is no such argument.
pub open spec fn version_at(args: Seq<Seq<char>>, i: int) -> i32 {
    if i < args.len() {
        version_of(args[i]) as i32
    } else {
        ANY_VERSION
    }
}

/// The request that a command of the service makes of its arguments. The
/// arguments fit the command's window.
pub open spec fn request_of(
    acl: Seq<zookeeper::Acl>,
    cmd: Command,
    args: Seq<Seq<char>>,
) -> RequestView {
    match cmd {
        Command::GetData => RequestView::GetData { path: args[0], watch: flag_at(args, 1) },
        Command::SetData => RequestView::SetData {
            path: args[0],
            data: encode_utf8(args[1]),
            version: version_at(args, 2),
        },
        Command::ListChildren => RequestView::GetChildren {
            path: args[0],
            watch: flag_at(args, 1),
        },
        Command::Create => RequestView::Create {
            path: args[0],
            data: encode_utf8(args[1]),
            acl,
            mode: mode_of(flag_at(args, 2), flag_at(args, 3)),
        },
        Command::Delete => RequestView::Delete { path: args[0], version: version_at(args, 1) },
        _ => RequestView::Exists { path: args[0], watch: flag_at(args, 1) },
    }
}

/// The lines that the help command shows.
pub open spec fn help_lines(args: Seq<Seq<char>>) -> Seq<Seq<char>> {
    if args.len() >= 1 {
        seq![help_full_text(args[0])]
    } else {
        help_all_lines()
    }
}

/// Connecting: the shell lets go of its session, which is closed before the
/// new one is opened.
pub open spec fn connect_step<S>(st: ShellView<S>, hosts: Seq<char>) -> (
    ShellView<S>,
    ActionView<S>,
) {
    (
        ShellView { session: None, ..st },
        ActionView::Open {
            stale: st.session,
            hosts,
            timeout_secs: st.session_timeout,
            notice: connecting_text(hosts),
        },
    )
}

/// Disconnecting: with no session a notice and nothing else; with one, the
/// shell lets go of it and has it closed.
pub open spec fn disconnect_step<S>(st: ShellView<S>) -> (ShellView<S>, ActionView<S>) {
    match st.session {
        None => (st, ActionView::Say(seq![not_connected_text()])),
        Some(s) => (ShellView { session: None, ..st }, ActionView::Close(s)),
    }
}

/// What a command does to the shell and asks of the caller. The argument
/// count is checked first, then the session, then the command runs.
pub open spec fn decide<S>(st: ShellView<S>, cmd: Command, args: Seq<Seq<char>>) -> (
    ShellView<S>,
    ActionView<S>,
) {
    if !cmd.accepts(args.len()) {
        (st, ActionView::Say(seq![cmd.arity_error()]))
    } else if cmd.needs_session() {
        if st.session is None {
            (st, ActionView::Say(seq![not_connected_text()]))
        } else {
            (st, ActionView::Call(request_of(st.default_acl, cmd, args)))
        }
    } else if cmd == Command::Connect {
        connect_step(st, args[0])
    } else if cmd == Command::Disconnect {
        disconnect_step(st)
    } else {
        (st, ActionView::Say(help_lines(args)))
    }
}

/// What one input line does to the shell and asks of the caller.
pub open spec fn step<S>(st: ShellView<S>, line: Seq<char>) -> (ShellView<S>, ActionView<S>) {
    let toks = tokens(line);
    if toks.len() == 0 {
        (st, ActionView::Idle)
    } else {
        match command_named(toks[0]) {
            None => (st, ActionView::Say(seq![unknown_command_text(toks[0])])),
            Some(cmd) => decide(st, cmd, toks.skip(1)),
        }
    }
}

/// What starting the shell does: it connects if it was given hosts.
pub open spec fn start_step<S>(st: ShellView<S>) -> (ShellView<S>, ActionView<S>) {
    if st.hosts.len() == 0 {
        (st, ActionView::Idle)
    } else {
        connect_step(st, st.hosts)
    }
}

/// What the outcome of opening a session does: a session is stored; a
/// failure, given by its code, is shown under its name and leaves the shell
/// without a session.
pub open spec fn opened_step<S>(st: ShellView<S>, outcome: Result<S, i32>) -> (
    ShellView<S>,
    Seq<Seq<char>>,
) {
    match outcome {
        Ok(session) => (ShellView { session: Some(session), ..st }, Seq::empty()),
        Err(code) => (ShellView { session: None, ..st }, seq![zk_error_name(code as int)]),
    }
}

/// One line to print.
fn say<S>(line: String) -> (action: Action<S>)
    ensures
        action@ == ActionView::<S>::Say(seq![line@]),
{
    let mut lines: Vec<String> = Vec::new();
    lines.push(line);
    proof {
        assert(string_views(lines@) =~= seq![line@]);
    }
    Action::Say(lines)
}

/// The flag at position `i` of `args`.
fn flag_arg(args: &Vec<&str>, i: usize) -> (flag: bool)
    ensures
        flag == flag_at(views(args@), i as int),
{
    if i < args.len() {
        parse_flag(args[i])
    } else {
        false
    }
}

/// The version at position `i` of `args`.
fn version_arg(args: &Vec<&str>, i: usize) -> (version: i32)
    ensures
        version == version_at(views(args@), i as int),
{
    if i < args.len() {
        parse_version(args[i])
    } else {
        ANY_VERSION
    }
}

impl<S> Shell<S> {
    /// The state of the shell, as contracts see it.
    pub closed spec fn view(&self) -> ShellView<S> {
        ShellView {
            hosts: self.hosts@,
            session: self.session,
            session_timeout: self.session_timeout,
            default_acl: self.default_acl@,
        }
    }

    /// A shell without a session, to be started against `hosts`; empty
    /// `hosts` start it disconnected.
    pub fn new(hosts: &str) -> (shell: Shell<S>)
        ensures
            shell@.hosts == hosts@,
            shell@.session is None,
            shell@.session_timeout == SESSION_TIMEOUT_SECS,
    {
        Shell {
            hosts: String::from_str(hosts),
            session: None,
            session_timeout: SESSION_TIMEOUT_SECS,
            default_acl: open_acl(),
        }
    }

    /// The hosts the shell was started with.
    pub fn hosts(&self) -> (hosts: &str)
        ensures
            hosts@ == self@.hosts,
    {
        self.hosts.as_str()
    }

    /// The live session, if any.
    pub fn current_session(&self) -> (session: Option<&S>)
        ensures
            session is Some <==> self@.session is Some,
            session matches Some(s) ==> self@.session == Some(*s),
    {
        self.session.as_ref()
    }

    /// Whether a session is live.
    pub fn is_connected(&self) -> (connected: bool)
        ensures
            connected == self@.session is Some,
    {
        self.session.is_some()
    }

    /// The timeout handed to every connect, in seconds.
    pub fn session_timeout(&self) -> (secs: u64)
        ensures
            secs == self@.session_timeout,
    {
        self.session_timeout
    }

    /// The access-control list given to every node the shell creates.
    pub fn default_acl(&self) -> (acl: &Vec<zookeeper::Acl>)
        ensures
            acl@ == self@.default_acl,
    {
        &self.default_acl
    }

    /// Checks the argument count of a command of the service, then the
    /// session: `None` where the command may go ahead, else the line to show.
    fn admit_remote(&self, cmd: Command, argc: usize) -> (refusal: Option<String>)
        requires
            cmd.needs_session(),
        ensures
            refusal is None <==> cmd.accepts(argc as nat) && self@.session is Some,
            refusal matches Some(line) ==> line@ == (if !cmd.accepts(argc as nat) {
                cmd.arity_error()
            } else {
                not_connected_text()
            }),
    {
        match cmd.check_args(argc) {
            Some(line) => Some(line),
            None => {
                if self.session.is_none() {
                    Some(String::from_str("Not connected."))
                } else {
                    None
                }
            },
        }
    }

    /// `get <path> [watch]`: asks for the data of a node.
    pub fn get(&self, args: &Vec<&str>) -> (action: Action<S>)
        ensures
            action@ == decide(self@, Command::GetData, views(args@)).1,
    {
        match self.admit_remote(Command::GetData, args.len()) {
            Some(line) => say(line),
            None => Action::Call(
                Request::GetData { path: String::from_str(args[0]), watch: flag_arg(args, 1) },
            ),
        }
    }

    /// `set <path> <data> [version]`: asks to write the data of a node.
    pub fn set(&self, args: &Vec<&str>) -> (action: Action<S>)
        ensures
            action@ == decide(self@, Command::SetData, views(args@)).1,
    {
        match self.admit_remote(Command::SetData, args.len()) {
            Some(line) => say(line),
            None => Action::Call(
                Request::SetData {
                    path: String::from_str(args[0]),
                    data: args[1].as_bytes_vec(),
                    version: version_arg(args, 2),
                },
            ),
        }
    }

    /// `ls <path> [watch]`: asks for the children of a node.
    pub fn ls(&self, args: &Vec<&str>) -> (action: Action<S>)
        ensures
            action@ == decide(self@, Command::ListChildren, views(args@)).1,
    {
        match self.admit_remote(Command::ListChildren, args.len()) {
            Some(line) => say(line),
            None => Action::Call(
                Request::GetChildren { path: String::from_str(args[0]), watch: flag_arg(args, 1) },
            ),
        }
    }

    /// `create <path> <data> [ephemeral] [sequential]`: asks to create a node
    /// under the shell's access-control list.
    pub fn create(&self, args: &Vec<&str>) -> (action: Action<S>)
        ensures
            action@ == decide(self@, Command::Create, views(args@)).1,
    {
        match self.admit_remote(Command::Create, args.len()) {
            Some(line) => say(line),
            None => {
                let mode = resolve_mode(flag_arg(args, 2), flag_arg(args, 3));
                let acl = self.default_acl.clone();
                proof {
                    assert(acl@ =~= self.default_acl@);
                }
                Action::Call(
                    Request::Create {
                        path: String::from_str(args[0]),
                        data: args[1].as_bytes_vec(),
                        acl,
                        mode,
                    },
                )
            },
        }
    }

    /// `rm <path> [version]`: asks to delete a node.
    pub fn rm(&self, args: &Vec<&str>) -> (action: Action<S>)
        ensures
            action@ == decide(self@, Command::Delete, views(args@)).1,
    {
        match self.admit_remote(Command::Delete, args.len()) {
            Some(line) => say(line),
            None => Action::Call(
                Request::Delete { path: String::from_str(args[0]), version: version_arg(args, 1) },
            ),
        }
    }

    /// `exists <path> [watch]`: asks for the stat of a node.
    pub fn stat(&self, args: &Vec<&str>) -> (action: Action<S>)
        ensures
            action@ == decide(self@, Command::Exists, views(args@)).1,
    {
        match self.admit_remote(Command::Exists, args.len()) {
            Some(line) => say(line),
            None => Action::Call(
                Request::Exists { path: String::from_str(args[0]), watch: flag_arg(args, 1) },
            ),
        }
    }

    /// `disconnect`: lets go of the session and has it closed. The shell is
    /// without a session afterwards, however the close goes.
    pub fn disconnect(&mut self) -> (action: Action<S>)
        ensures
            (final(self)@, action@) == disconnect_step(old(self)@),
    {
        match self.session.take() {
            Some(session) => Action::Close(session),
            None => say(String::from_str("Not connected.")),
        }
    }

    /// Lets go of the session, if any, and asks for a new one to `hosts`.
    pub fn connect_to(&mut self, hosts: &str) -> (action: Action<S>)
        ensures
            (final(self)@, action@) == connect_step(old(self)@, hosts@),
    {
        let stale = self.session.take();
        let mut notice = String::from_str("Connecting to ");
        notice.append(hosts);
        notice.append("...");
        Action::Open {
            stale,
            hosts: String::from_str(hosts),
            timeout_secs: self.session_timeout,
            notice,
        }
    }

    /// `connect <hosts>`: replaces the session by one to `hosts`.
    pub fn connect(&mut self, args: &Vec<&str>) -> (action: Action<S>)
        ensures
            (final(self)@, action@) == decide(old(self)@, Command::Connect, views(args@)),
    {
        match Command::Connect.check_args(args.len()) {
            Some(line) => say(line),
            None => self.connect_to(args[0]),
        }
    }

    /// `help [cmd]`: the listing of all commands, or the manual page of one.
    pub fn help(&self, args: &Vec<&str>) -> (action: Action<S>)
        ensures
            action@ == decide(self@, Command::Help, views(args@)).1,
    {
        match Command::Help.check_args(args.len()) {
            Some(line) => say(line),
            None => {
                if args.len() == 1 {
                    say(help_full(args[0]))
                } else {
                    Action::Say(help_all())
                }
            },
        }
    }

    /// Runs a command on its arguments.
    pub fn execute(&mut self, cmd: Command, args: &Vec<&str>) -> (action: Action<S>)
        ensures
            (final(self)@, action@) == decide(old(self)@, cmd, views(args@)),
    {
        match cmd {
            Command::GetData => self.get(args),
            Command::SetData => self.set(args),
            Command::ListChildren => self.ls(args),
            Command::Create => self.create(args),
            Command::Delete => self.rm(args),
            Command::Exists => self.stat(args),
            Command::Disconnect => {
                match Command::Disconnect.check_args(args.len()) {
                    Some(line) => say(line),
                    None => self.disconnect(),
                }
            },
            Command::Connect => self.connect(args),
            Command::Help => self.help(args),
        }
    }

    /// Starts the shell: connects to the hosts it was given, if any.
    pub fn start(&mut self) -> (action: Action<S>)
        ensures
            (final(self)@, action@) == start_step(old(self)@),
    {
        if self.hosts.as_str().unicode_len() == 0 {
            Action::Idle
        } else {
            let hosts = self.hosts.clone();
            self.connect_to(hosts.as_str())
        }
    }

    /// Runs one input line: splits it into tokens, resolves the command and
    /// runs it on the remaining tokens.
    pub fn run(&mut self, line: &str) -> (action: Action<S>)
        ensures
            (final(self)@, action@) == step(old(self)@, line@),
    {
        let pieces = tokenize(line);
        if pieces.len() == 0 {
            return Action::Idle;
        }
        let name = pieces[0];
        let mut args: Vec<&str> = Vec::new();
        let mut i: usize = 1;
        while i < pieces.len()
            invariant
                1 <= i <= pieces.len(),
                args.len() == i - 1,
                forall|j: int| 0 <= j < args.len() ==> args@[j] == pieces@[j + 1],
            decreases pieces.len() - i,
        {
            args.push(pieces[i]);
            i = i + 1;
        }
        proof {
            assert(views(args@) =~= views(pieces@).skip(1));
            assert(views(pieces@)[0] == name@);
        }
        match Command::resolve(name) {
            Some(cmd) => self.execute(cmd, &args),
            None => {
                let mut text = String::from_str("Unknown command: ");
                text.append(name);
                say(text)
            },
        }
    }

    /// Takes the outcome of opening a session, after an [`Action::Open`]: the
    /// new session, or the code of the failure. Returns the lines to print.
    pub fn opened(&mut self, outcome: Result<S, i32>) -> (lines: Vec<String>)
        ensures
            (final(self)@, string_views(lines@)) == opened_step(old(self)@, outcome),
    {
        let mut lines: Vec<String> = Vec::new();
        match outcome {
            Ok(session) => {
                self.session = Some(session);
            },
            Err(code) => {
                self.session = None;
                lines.push(error_name(code));
            },
        }
        proof {
            assert(string_views(lines@) =~= opened_step(old(self)@, outcome).1);
        }
        lines
    }
}

} // verus!
