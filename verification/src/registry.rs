//! The registry: which handle stands for which inode.

use std::collections::BTreeMap;
use vstd::prelude::*;
use vstd::std_specs::cmp::PartialEqSpec;
use crate::handler::Handle;

verus! {

/// The nodes of a mounted file system, by inode number.
///
/// Each handle is kept under its own inode number, so that no two handles
/// in the registry stand for the same node.
pub struct Registry<D, F> {
    nodes: BTreeMap<u64, Handle<D, F>>,
}

impl<D, F> View for Registry<D, F> {
    type V = Map<u64, Handle<D, F>>;

    closed spec fn view(&self) -> Map<u64, Handle<D, F>> {
        self.nodes@
    }
}

/// Every handle of the map is kept under its own inode number.
pub open spec fn keyed_by_ino<D, F>(nodes: Map<u64, Handle<D, F>>) -> bool {
    forall|ino: u64| #[trigger] nodes.contains_key(ino) ==> nodes[ino].inner().ino() == ino
}

impl<D, F> Registry<D, F> {
    /// Every handle is kept under its own inode number. Every registry
    /// that `new` made and that the methods below changed is so.
    pub open spec fn wf(&self) -> bool {
        keyed_by_ino(self@)
    }

    /// An empty registry.
    pub fn new() -> (registry: Registry<D, F>)
        ensures
            registry@ == Map::<u64, Handle<D, F>>::empty(),
            registry.wf(),
    {
        Registry { nodes: BTreeMap::new() }
    }

    /// Whether a handle is kept under `ino`.
    pub fn contains(&self, ino: u64) -> (found: bool)
        ensures
            found == self@.contains_key(ino),
    {
        broadcast use vstd::std_specs::btree::group_btree_axioms;
        self.nodes.contains_key(&ino)
    }

    /// Puts `handle` into the registry under `ino`.
    ///
    /// A handle in the registry is never replaced, and a handle is kept
    /// under its own number only: otherwise nothing is changed and
    /// `false` is returned.
    pub fn insert(&mut self, ino: u64, handle: Handle<D, F>) -> (inserted: bool)
        requires
            old(self).wf(),
        ensures
            inserted == (!old(self)@.contains_key(ino) && handle.inner().ino() == ino),
            final(self)@ == if inserted {
                old(self)@.insert(ino, handle)
            } else {
                old(self)@
            },
            final(self).wf(),
    {
        broadcast use vstd::std_specs::btree::group_btree_axioms;
        if handle.get().get_ino() != ino || self.nodes.contains_key(&ino) {
            false
        } else {
            self.nodes.insert(ino, handle);
            true
        }
    }

    /// The handle that is kept under `ino`, if there is one: another
    /// handle of the same node, not a copy of the node.
    pub fn get(&self, ino: u64) -> (found: Option<Handle<D, F>>)
        requires
            self.wf(),
        ensures
            found == if self@.contains_key(ino) {
                Some(self@[ino])
            } else {
                None
            },
            found matches Some(handle) ==> handle.inner().ino() == ino,
    {
        broadcast use vstd::std_specs::btree::group_btree_axioms;
        match self.nodes.get(&ino) {
            Some(handle) => Some(handle.clone()),
            None => None,
        }
    }

    /// Takes the handle that is kept under `ino` out of the registry.
    pub fn remove(&mut self, ino: u64) -> (removed: Option<Handle<D, F>>)
        requires
            old(self).wf(),
        ensures
            removed == if old(self)@.contains_key(ino) {
                Some(old(self)@[ino])
            } else {
                None
            },
            final(self)@ == old(self)@.remove(ino),
            final(self).wf(),
    {
        broadcast use vstd::std_specs::btree::group_btree_axioms;
        self.nodes.remove(&ino)
    }
}

/// In a registry, two handles are equal exactly when they have the same
/// inode number, and that is when they are kept under the same number.
pub proof fn lemma_handles_equal_by_ino<D, F>(nodes: Map<u64, Handle<D, F>>, a: u64, b: u64)
    requires
        keyed_by_ino(nodes),
        nodes.contains_key(a),
        nodes.contains_key(b),
    ensures
        nodes[a].eq_spec(&nodes[b]) <==> nodes[a].inner().ino() == nodes[b].inner().ino(),
        nodes[a].eq_spec(&nodes[b]) <==> a == b,
        nodes[a].inner().eq_spec(&nodes[b].inner()) <==> a == b,
{
}

} // verus!
