//! The boundary to the `zookeeper` client crate. The shell itself performs no
//! remote call; from the crate it takes the default access-control list and
//! the texts under which the crate shows an error code and a node's stat.
//! Nothing in this file is proved: each contract states what the crate's
//! source shows.

use vstd::prelude::*;

verus! {

/// An entry of an access-control list, as the client crate holds it. The
/// shell only carries such values from the crate to a create request.
#[verifier::external_type_specification]
#[verifier::external_body]
pub struct ExAcl(zookeeper::Acl);

/// `Clone::clone` of `zookeeper::Acl`, which the crate derives: the copy has
/// the permissions, the scheme and the id of the entry it was made from.
pub assume_specification[ <zookeeper::Acl as Clone>::clone ](acl: &zookeeper::Acl) -> (copy:
    zookeeper::Acl)
    ensures
        copy == *acl,
;

/// The name under which the client crate shows the error code `code`: the
/// `Debug` text of `ZkError::from(code)`.
pub uninterp spec fn zk_error_name(code: int) -> Seq<char>;

/// The `Debug` text of a `zookeeper::Stat` with the given fields.
pub uninterp spec fn zk_stat_text(
    czxid: int,
    mzxid: int,
    ctime: int,
    mtime: int,
    version: int,
    cversion: int,
    aversion: int,
    ephemeral_owner: int,
    data_length: int,
    num_children: int,
    pzxid: int,
) -> Seq<char>;

/// The metadata of a node: the fields of the client crate's `Stat`, as plain
/// integers.
#[derive(Clone, Copy, Debug, PartialEq, Eq, Structural)]
pub struct NodeStat {
    /// The transaction that created the node.
    pub czxid: i64,
    /// The transaction that last modified the node.
    pub mzxid: i64,
    /// Creation time, in milliseconds since the epoch.
    pub ctime: i64,
    /// Time of the last modification, in milliseconds since the epoch.
    pub mtime: i64,
    /// Number of changes to the node's data.
    pub version: i32,
    /// Number of changes to the node's children.
    pub cversion: i32,
    /// Number of changes to the node's access-control list.
    pub aversion: i32,
    /// The session that owns the node, if it is ephemeral; else 0.
    pub ephemeral_owner: i64,
    /// Length of the node's data.
    pub data_length: i32,
    /// Number of children of the node.
    pub num_children: i32,
    /// The transaction that last modified the node's children.
    pub pzxid: i64,
}

impl NodeStat {
    /// The text under which the shell shows the stat.
    pub open spec fn text(self) -> Seq<char> {
        zk_stat_text(
            self.czxid as int,
            self.mzxid as int,
            self.ctime as int,
            self.mtime as int,
            self.version as int,
            self.cversion as int,
            self.aversion as int,
            self.ephemeral_owner as int,
            self.data_length as int,
            self.num_children as int,
            self.pzxid as int,
        )
    }
}

/// Calls `ZkError::from` on the code and formats the error with `{:?}`. The
/// crate maps a code it does not know to `Unimplemented`, so every code has a
/// name, and the name depends on the code alone.
#[verifier::external_body]
pub(crate) fn error_name(code: i32) -> (name: String)
    ensures
        name@ == zk_error_name(code as int),
{
    format!("{:?}", zookeeper::ZkError::from(code))
}

/// Builds a `zookeeper::Stat` of the same fields and formats it with `{:?}`.
/// The text depends on the eleven fields alone.
#[verifier::external_body]
pub(crate) fn stat_text(stat: &NodeStat) -> (text: String)
    ensures
        text@ == zk_stat_text(
            stat.czxid as int,
            stat.mzxid as int,
            stat.ctime as int,
            stat.mtime as int,
            stat.version as int,
            stat.cversion as int,
            stat.aversion as int,
            stat.ephemeral_owner as int,
            stat.data_length as int,
            stat.num_children as int,
            stat.pzxid as int,
        ),
{
    let s = zookeeper::Stat {
        czxid: stat.czxid, mzxid: stat.mzxid, ctime: stat.ctime, mtime: stat.mtime,
        version: stat.version, cversion: stat.cversion, aversion: stat.aversion,
        ephemeral_owner: stat.ephemeral_owner, data_length: stat.data_length,
        num_children: stat.num_children, pzxid: stat.pzxid,
    };
    format!("{:?}", s)
}

/// Copies the list behind `Acl::open_unsafe`, the crate's completely open
/// access-control list. The entries are opaque here, so nothing is stated of
/// them.
#[verifier::external_body]
pub(crate) fn open_acl() -> (acl: Vec<zookeeper::Acl>) {
    zookeeper::Acl::open_unsafe().clone()
}

} // verus!
