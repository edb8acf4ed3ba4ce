//! What a user's object must offer to stand in the file system.
//!
//! Every method has a default that reports `NotImplemented`, so that an
//! object states only what it can do.

use vstd::prelude::*;
use crate::controller::Request;
use crate::error::{DirError, FileError, NodeError};
use crate::link::NodeEntry;

verus! {

/// The answer of a file to a read: the bytes or the error, at once or
/// later.
///
/// A file that has its bytes at hand answers with a `Result`. A file that
/// must wait for them answers with a value of a type of the runtime that
/// resolves to such a `Result`.
pub trait ReadReply: Sized {
    /// The answer is one that has resolved to `result` already. A type
    /// that can tell says so here; of an answer of any other type nothing
    /// is said.
    open spec fn resolved_to(&self, result: Result<Vec<u8>, FileError>) -> bool {
        true
    }

    /// The answer that has resolved to `result` already.
    fn ready(result: Result<Vec<u8>, FileError>) -> (reply: Self)
        ensures
            reply.resolved_to(result),
    ;
}

impl ReadReply for Result<Vec<u8>, FileError> {
    /// A `Result` has resolved to itself.
    open spec fn resolved_to(&self, result: Result<Vec<u8>, FileError>) -> bool {
        *self == result
    }

    fn ready(result: Result<Vec<u8>, FileError>) -> (reply: Self)
        ensures
            reply == result,
    {
        result
    }
}

/// What every node offers. `C` is the type of the controller that the
/// engine hands to a node when it registers it.
pub trait Node<C> {
    /// Called once, when the node is registered.
    fn init(&mut self, _controller: C) {
    }

    /// Fills in the attributes of the node, starting from `entry`.
    ///
    /// A node that does not say otherwise reports `NotImplemented`.
    fn read_attributes(&mut self, _req: Request, _entry: NodeEntry) -> (answer: Result<
        NodeEntry,
        NodeError,
    >)
        default_ensures
            answer == Err::<NodeEntry, NodeError>(NodeError::NotImplemented),
    {
        Err(NodeError::new(NodeError::NotImplemented))
    }
}

/// What a directory offers.
pub trait Directory<C>: Node<C> {
    /// Finds the entry with the given name.
    ///
    /// A directory that does not say otherwise reports `NotImplemented`.
    fn lookup(&mut self, _req: Request, _name: String) -> (answer: Result<NodeEntry, NodeError>)
        default_ensures
            answer == Err::<NodeEntry, NodeError>(NodeError::NotImplemented),
    {
        Err(NodeError::new(NodeError::NotImplemented))
    }

    /// Lists the entries of the directory.
    ///
    /// A directory that does not say otherwise reports `NotImplemented`.
    fn readdir(&mut self, _req: Request) -> (answer: Result<Vec<NodeEntry>, DirError>)
        default_ensures
            answer == Err::<Vec<NodeEntry>, DirError>(
                DirError::DirNodeErr(NodeError::NotImplemented),
            ),
    {
        Err(DirError::new(NodeError::NotImplemented))
    }
}

/// What a regular file offers.
pub trait File<C, R: ReadReply>: Node<C> {
    /// Reads the content of the file.
    ///
    /// A file that does not say otherwise answers at once, with
    /// `NotImplemented`.
    fn read(&mut self, _req: Request) -> (answer: R)
        default_ensures
            answer.resolved_to(
                Err::<Vec<u8>, FileError>(FileError::FileNodeErr(NodeError::NotImplemented)),
            ),
    {
        R::ready(Err(FileError::new(NodeError::NotImplemented)))
    }
}

} // verus!
