//! Node handles: what the registry holds for each inode.

use std::sync::Arc;
use vstd::prelude::*;
use crate::file::FileType;

verus! {

/// The user's object behind a handle: a file or a directory.
///
/// `D` is the type of a directory object and `F` that of a file object,
/// each with whatever guards it against concurrent use.
pub enum HandleDispatcher<D, F> {
    RegularFile(F),
    Dir(D),
}

/// What a handle points to: the inode number and the user's object.
/// Neither the number nor the variant changes once the handle is made.
pub struct HandleInner<D, F> {
    ino: u64,
    dispatch: HandleDispatcher<D, F>,
}

impl<D, F> HandleInner<D, F> {
    /// The inode number of the node.
    pub closed spec fn ino(&self) -> u64 {
        self.ino
    }

    /// The user's object.
    pub closed spec fn spec_dispatch(&self) -> HandleDispatcher<D, F> {
        self.dispatch
    }

    /// The kind of the node: a directory or a regular file.
    pub open spec fn kind(&self) -> FileType {
        match self.spec_dispatch() {
            HandleDispatcher::Dir(_) => FileType::Directory,
            HandleDispatcher::RegularFile(_) => FileType::RegularFile,
        }
    }

    /// The user's object.
    pub fn dispatch_ref(&self) -> (dispatch: &HandleDispatcher<D, F>)
        ensures
            *dispatch == self.spec_dispatch(),
    {
        &self.dispatch
    }

    /// The inode number of the node.
    pub fn get_ino(&self) -> (ino: u64)
        ensures
            ino == self.ino(),
    {
        self.ino
    }

    /// The kind of the node: a directory or a regular file.
    pub fn get_kind(&self) -> (kind: FileType)
        ensures
            kind == self.kind(),
    {
        match self.dispatch {
            HandleDispatcher::Dir(_) => FileType::Directory,
            HandleDispatcher::RegularFile(_) => FileType::RegularFile,
        }
    }
}

impl<D, F> PartialEq for HandleInner<D, F> {
    /// Two nodes are the same node when they have the same inode number.
    fn eq(&self, other: &HandleInner<D, F>) -> (r: bool) {
        self.ino == other.ino
    }
}

impl<D, F> Eq for HandleInner<D, F> {}

impl<D, F> vstd::std_specs::cmp::PartialEqSpecImpl for HandleInner<D, F> {
    open spec fn obeys_eq_spec() -> bool {
        true
    }

    open spec fn eq_spec(&self, other: &HandleInner<D, F>) -> bool {
        self.ino() == other.ino()
    }
}

/// `Arc::clone`: another pointer to the same value.
#[verifier::external_body]
fn share<T>(pointer: &Arc<T>) -> (other: Arc<T>)
    ensures
        other == *pointer,
{
    Arc::clone(pointer)
}

/// A handle of a node, shared by the registry, by the directory entries
/// that name the node and by the requests in flight.
pub struct Handle<D, F>(Arc<HandleInner<D, F>>);

impl<D, F> Handle<D, F> {
    /// What the handle points to.
    pub closed spec fn inner(&self) -> HandleInner<D, F> {
        *self.0
    }

    /// The handle of a regular file.
    pub fn new_file(ino: u64, object: F) -> (handle: Handle<D, F>)
        ensures
            handle.inner().ino() == ino,
            handle.inner().spec_dispatch() == HandleDispatcher::<D, F>::RegularFile(object),
    {
        Handle(Arc::new(HandleInner { ino, dispatch: HandleDispatcher::RegularFile(object) }))
    }

    /// The handle of a directory.
    pub fn new_dir(ino: u64, object: D) -> (handle: Handle<D, F>)
        ensures
            handle.inner().ino() == ino,
            handle.inner().spec_dispatch() == HandleDispatcher::<D, F>::Dir(object),
    {
        Handle(Arc::new(HandleInner { ino, dispatch: HandleDispatcher::Dir(object) }))
    }

    /// What the handle points to.
    pub fn get(&self) -> (inner: &HandleInner<D, F>)
        ensures
            *inner == self.inner(),
    {
        &*self.0
    }
}

impl<D, F> PartialEq for Handle<D, F> {
    /// Two handles are equal when they stand for the same inode.
    fn eq(&self, other: &Handle<D, F>) -> (r: bool) {
        self.0.ino == other.0.ino
    }
}

impl<D, F> Eq for Handle<D, F> {}

impl<D, F> vstd::std_specs::cmp::PartialEqSpecImpl for Handle<D, F> {
    open spec fn obeys_eq_spec() -> bool {
        true
    }

    open spec fn eq_spec(&self, other: &Handle<D, F>) -> bool {
        self.inner().ino() == other.inner().ino()
    }
}

impl<D, F> Clone for Handle<D, F> {
    /// Another handle of the same node.
    fn clone(&self) -> (other: Handle<D, F>)
        ensures
            other == *self,
    {
        Handle(share(&self.0))
    }
}

} // verus!
