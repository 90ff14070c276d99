//! What the shell asks of the coordination service and how it shows the
//! answer: requests, replies, the mapping from failure codes to messages.

use crate::text::{join, joined, string_views};
use crate::zk::{error_name, stat_text, zk_error_name, NodeStat};
use vstd::prelude::*;
use vstd::string::*;
use vstd::utf8::*;

verus! {

/// The code the service gives when the addressed node does not exist.
pub const NO_NODE: i32 = -101;

/// The code the service gives when a node to delete still has children.
pub const NOT_EMPTY: i32 = -111;

/// How a created node lives and is named.
#[derive(Clone, Copy, Debug, PartialEq, Eq, Structural)]
pub enum NodeMode {
    /// Stays until it is deleted.
    Persistent,
    /// Vanishes when the session that created it ends.
    Ephemeral,
    /// Persistent, with a counter appended to its name by the service.
    PersistentSequential,
    /// Ephemeral, with a counter appended to its name by the service.
    EphemeralSequential,
}

/// The mode that the two flags of `create` select.
pub open spec fn mode_of(ephemeral: bool, sequential: bool) -> NodeMode {
    if ephemeral {
        if sequential {
            NodeMode::EphemeralSequential
        } else {
            NodeMode::Ephemeral
        }
    } else {
        if sequential {
            NodeMode::PersistentSequential
        } else {
            NodeMode::Persistent
        }
    }
}

/// Resolves the mode of a node to create from the two flags.
pub fn resolve_mode(ephemeral: bool, sequential: bool) -> (mode: NodeMode)
    ensures
        mode == mode_of(ephemeral, sequential),
{
    let base = if ephemeral {
        NodeMode::Ephemeral
    } else {
        NodeMode::Persistent
    };
    if sequential {
        match base {
            NodeMode::Ephemeral => NodeMode::EphemeralSequential,
            _ => NodeMode::PersistentSequential,
        }
    } else {
        base
    }
}

/// One operation on a node of the service, addressed by its path.
#[derive(Clone, Debug, PartialEq)]
pub enum Request {
    /// Fetch the node's data; `watch` leaves a watch on the node.
    GetData { path: String, watch: bool },
    /// Write `data` if the node's version is `version`; -1 matches any.
    SetData { path: String, data: Vec<u8>, version: i32 },
    /// List the names of the node's children.
    GetChildren { path: String, watch: bool },
    /// Create the node with `data`, under `acl`, in `mode`.
    Create { path: String, data: Vec<u8>, acl: Vec<zookeeper::Acl>, mode: NodeMode },
    /// Delete the node if its version is `version`; -1 matches any.
    Delete { path: String, version: i32 },
    /// Fetch the node's stat, or learn that there is no such node.
    Exists { path: String, watch: bool },
}

/// A request, as contracts see it.
pub enum RequestView {
    GetData { path: Seq<char>, watch: bool },
    SetData { path: Seq<char>, data: Seq<u8>, version: i32 },
    GetChildren { path: Seq<char>, watch: bool },
    Create { path: Seq<char>, data: Seq<u8>, acl: Seq<zookeeper::Acl>, mode: NodeMode },
    Delete { path: Seq<char>, version: i32 },
    Exists { path: Seq<char>, watch: bool },
}

impl RequestView {
    /// The path of the node that the request addresses.
    pub open spec fn path(self) -> Seq<char> {
        match self {
            RequestView::GetData { path, .. } => path,
            RequestView::SetData { path, .. } => path,
            RequestView::GetChildren { path, .. } => path,
            RequestView::Create { path, .. } => path,
            RequestView::Delete { path, .. } => path,
            RequestView::Exists { path, .. } => path,
        }
    }
}

impl View for Request {
    type V = RequestView;

    open spec fn view(&self) -> RequestView {
        match *self {
            Request::GetData { path, watch } => RequestView::GetData { path: path@, watch },
            Request::SetData { path, data, version } => RequestView::SetData {
                path: path@,
                data: data@,
                version,
            },
            Request::GetChildren { path, watch } => RequestView::GetChildren { path: path@, watch },
            Request::Create { path, data, acl, mode } => RequestView::Create {
                path: path@,
                data: data@,
                acl: acl@,
                mode,
            },
            Request::Delete { path, version } => RequestView::Delete { path: path@, version },
            Request::Exists { path, watch } => RequestView::Exists { path: path@, watch },
        }
    }
}

impl Request {
    /// The path of the node that the request addresses.
    pub fn path(&self) -> (path: &str)
        ensures
            path@ == self@.path(),
    {
        match self {
            Request::GetData { path, .. } => path.as_str(),
            Request::SetData { path, .. } => path.as_str(),
            Request::GetChildren { path, .. } => path.as_str(),
            Request::Create { path, .. } => path.as_str(),
            Request::Delete { path, .. } => path.as_str(),
            Request::Exists { path, .. } => path.as_str(),
        }
    }
}

/// What the service answered to a request.
#[derive(Clone, Debug, PartialEq)]
pub enum Reply {
    /// The data of the node.
    Data(Vec<u8>),
    /// The names of the node's children, in the order the service gave them.
    Children(Vec<String>),
    /// The stat of the node, or `None` where there is no such node.
    Stat(Option<NodeStat>),
    /// The operation succeeded and has nothing to show.
    Done,
    /// The service refused, with this code.
    Failed(i32),
}

/// A reply, as contracts see it.
pub enum ReplyView {
    Data(Seq<u8>),
    Children(Seq<Seq<char>>),
    Stat(Option<NodeStat>),
    Done,
    Failed(i32),
}

impl View for Reply {
    type V = ReplyView;

    open spec fn view(&self) -> ReplyView {
        match *self {
            Reply::Data(bytes) => ReplyView::Data(bytes@),
            Reply::Children(names) => ReplyView::Children(string_views(names@)),
            Reply::Stat(stat) => ReplyView::Stat(stat),
            Reply::Done => ReplyView::Done,
            Reply::Failed(code) => ReplyView::Failed(code),
        }
    }
}

/// A reply that cannot be shown.
#[derive(Clone, Copy, Debug, PartialEq, Eq, Structural)]
pub enum RenderError {
    /// The data of the node is not UTF-8 text.
    InvalidUtf8,
}

impl RenderError {
    /// What the error says, in one line.
    pub open spec fn text(self) -> Seq<char> {
        "Data is not valid UTF-8."@
    }

    /// The line that tells the user of the error.
    pub fn message(&self) -> (line: String)
        ensures
            line@ == self.text(),
    {
        String::from_str("Data is not valid UTF-8.")
    }
}

/// The message for a node that does not exist.
pub open spec fn missing_text(path: Seq<char>) -> Seq<char> {
    "Path "@ + path + " does not exist."@
}

/// The message for a node that cannot be deleted because it has children.
pub open spec fn not_empty_text(path: Seq<char>) -> Seq<char> {
    "Path "@ + path + " is not empty."@
}

/// The message for a failure that has no message of its own; `name` is what
/// the client library calls the code.
pub open spec fn unknown_text(name: Seq<char>) -> Seq<char> {
    "Unknown error: "@ + name
}

/// The message for the failure `code` of an operation on `path`.
pub open spec fn error_text(code: int, path: Seq<char>) -> Seq<char> {
    if code == NO_NODE {
        missing_text(path)
    } else if code == NOT_EMPTY {
        not_empty_text(path)
    } else {
        unknown_text(zk_error_name(code))
    }
}

/// The lines that show `reply` to an operation on `path`, or the reason why
/// it cannot be shown.
pub open spec fn rendered(path: Seq<char>, reply: ReplyView) -> Result<
    Seq<Seq<char>>,
    RenderError,
> {
    match reply {
        ReplyView::Data(bytes) => if valid_utf8(bytes) {
            Ok(seq![decode_utf8(bytes)])
        } else {
            Err(RenderError::InvalidUtf8)
        },
        ReplyView::Children(names) => Ok(seq![joined(names, " "@)]),
        ReplyView::Stat(Some(stat)) => Ok(seq![stat.text()]),
        ReplyView::Stat(None) => Ok(seq![missing_text(path)]),
        ReplyView::Done => Ok(Seq::empty()),
        ReplyView::Failed(code) => Ok(seq![error_text(code as int, path)]),
    }
}

/// `core::str::from_utf8`, with the text copied into a `String`: the bytes
/// decode exactly when they are valid UTF-8, and then to the characters they
/// encode.
#[verifier::external_body]
fn decode_text(bytes: &[u8]) -> (text: Option<String>)
    ensures
        text is Some <==> valid_utf8(bytes@),
        text matches Some(s) ==> s@ == decode_utf8(bytes@),
{
    match core::str::from_utf8(bytes) {
        Ok(s) => Some(s.to_owned()),
        Err(_) => None,
    }
}

/// The message for a node that does not exist.
pub fn missing_node(path: &str) -> (line: String)
    ensures
        line@ == missing_text(path@),
{
    let mut line = String::from_str("Path ");
    line.append(path);
    line.append(" does not exist.");
    line
}

/// The message for a node that still has children.
pub fn not_empty_node(path: &str) -> (line: String)
    ensures
        line@ == not_empty_text(path@),
{
    let mut line = String::from_str("Path ");
    line.append(path);
    line.append(" is not empty.");
    line
}

/// The message for a failure known only by the name of its code.
pub fn unknown_error(name: &str) -> (line: String)
    ensures
        line@ == unknown_text(name@),
{
    let mut line = String::from_str("Unknown error: ");
    line.append(name);
    line
}

/// Maps the failure `code` of an operation on `path` to its message.
pub fn report_error(code: i32, path: &str) -> (line: String)
    ensures
        line@ == error_text(code as int, path@),
{
    if code == NO_NODE {
        missing_node(path)
    } else if code == NOT_EMPTY {
        not_empty_node(path)
    } else {
        let name = error_name(code);
        unknown_error(name.as_str())
    }
}

/// Decodes the data of a node as UTF-8 text.
pub fn decode(bytes: &Vec<u8>) -> (text: Result<String, RenderError>)
    ensures
        text is Ok <==> valid_utf8(bytes@),
        text matches Ok(s) ==> s@ == decode_utf8(bytes@),
        text matches Err(e) ==> e == RenderError::InvalidUtf8,
{
    match decode_text(bytes.as_slice()) {
        Some(s) => Ok(s),
        None => Err(RenderError::InvalidUtf8),
    }
}

/// Renders the reply to an operation on `path` as the lines to print.
pub fn render(path: &str, reply: &Reply) -> (shown: Result<Vec<String>, RenderError>)
    ensures
        match rendered(path@, reply@) {
            Ok(lines) => shown matches Ok(v) && string_views(v@) == lines,
            Err(e) => shown == Err::<Vec<String>, RenderError>(e),
        },
{
    let mut lines: Vec<String> = Vec::new();
    match reply {
        Reply::Data(bytes) => {
            match decode(bytes) {
                Ok(text) => {
                    lines.push(text);
                },
                Err(e) => {
                    return Err(e);
                },
            }
        },
        Reply::Children(names) => {
            lines.push(join(names, " "));
        },
        Reply::Stat(Some(stat)) => {
            lines.push(stat_text(stat));
        },
        Reply::Stat(None) => {
            lines.push(missing_node(path));
        },
        Reply::Done => {},
        Reply::Failed(code) => {
            lines.push(report_error(*code, path));
        },
    }
    proof {
        assert(rendered(path@, reply@) is Ok);
        assert(string_views(lines@) =~= rendered(path@, reply@)->Ok_0);
    }
    Ok(lines)
}

} // verus!
