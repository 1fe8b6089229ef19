//! A model of the remote key-value store: the commands the service sends,
//! the replies it may receive, and what a conforming store does with each
//! command.
//!
//! The store itself is a separate process; the library only decides what
//! to send and what each reply means. The model here says what a store
//! that follows the protocol holds and answers, so that the handlers'
//! guarantees can be stated against it.

use vstd::prelude::*;

verus! {

/// A reply from the key-value store, already read off the wire: the
/// store's native reply shapes.
pub enum StoreReply {
    /// A simple status line, such as the `OK` confirming a write.
    Simple(String),
    /// An integer, such as the number of keys a DEL removed.
    Int(i64),
    /// A bulk (binary-safe) string.
    Bulk(Vec<u8>),
    /// An error line from the store.
    Error(String),
    /// The null reply.
    Nil,
    /// A multi-value reply.
    Array(Vec<StoreReply>),
}

/// A failure to reach the store or to complete a command at all.
pub struct TransportError;

/// A command the service sends to the store.
pub enum Command {
    /// Store `value` under `key`.
    Put { key: String, value: String },
    /// Remove `key`.
    Del { key: String },
}

/// The mathematical value of a command.
pub enum CommandView {
    Put { key: Seq<char>, value: Seq<char> },
    Del { key: Seq<char> },
}

impl View for Command {
    type V = CommandView;

    open spec fn view(&self) -> CommandView {
        match self {
            Command::Put { key, value } => CommandView::Put { key: key@, value: value@ },
            Command::Del { key } => CommandView::Del { key: key@ },
        }
    }
}

/// The contents of the store: one stored text per key.
pub type StoreContents = Map<Seq<char>, Seq<char>>;

/// A reply as the protocol defines it for the two commands the service
/// sends: a simple status string, or an integer count.
pub enum ReplyModel {
    Simple(Seq<char>),
    Int(int),
}

/// The store's contents after a command: SET binds the key to the value,
/// DEL removes the key.
pub open spec fn store_after(st: StoreContents, c: CommandView) -> StoreContents {
    match c {
        CommandView::Put { key, value } => st.insert(key, value),
        CommandView::Del { key } => st.remove(key),
    }
}

/// The reply a conforming store gives: `OK` for a SET; for a DEL, the
/// number of keys removed, which for a single key is 1 when the key was
/// present and 0 when it was not.
pub open spec fn store_reply(st: StoreContents, c: CommandView) -> ReplyModel {
    match c {
        CommandView::Put { .. } => ReplyModel::Simple("OK"@),
        CommandView::Del { key } => ReplyModel::Int(
            if st.contains_key(key) {
                1
            } else {
                0
            },
        ),
    }
}

/// Whether an executable reply value carries the modeled reply.
pub open spec fn reply_matches(r: StoreReply, m: ReplyModel) -> bool {
    match m {
        ReplyModel::Simple(s) => r matches StoreReply::Simple(x) && x@ == s,
        ReplyModel::Int(n) => r matches StoreReply::Int(x) && x as int == n,
    }
}

} // verus!
