//! The nodes of a mounted file system: the registry together with the
//! generator of inode numbers.

use vstd::prelude::*;
use crate::handler::{Handle, HandleDispatcher};
use crate::registry::Registry;
use crate::utils::InoGenerator;

verus! {

/// The registry and the generator of inode numbers, which belong
/// together: every number in the registry came from the generator, so
/// that the next number is always free.
///
/// Mounting, and the calls of `init` on the objects, are up to the
/// program that owns the engine.
pub struct Engine<D, F> {
    registry: Registry<D, F>,
    ino_generator: InoGenerator,
}

impl<D, F> Engine<D, F> {
    /// The handles of the registry, by inode number.
    pub closed spec fn nodes(&self) -> Map<u64, Handle<D, F>> {
        self.registry@
    }

    /// The number that the next node gets.
    pub closed spec fn next_ino(&self) -> u64 {
        self.ino_generator.next()
    }

    /// Every handle is kept under its own number, and every number in use
    /// is one that the generator has handed out: it is at least 1 and
    /// below the next number.
    pub open spec fn wf(&self) -> bool {
        &&& crate::registry::keyed_by_ino(self.nodes())
        &&& self.next_ino() >= 1
        &&& forall|ino: u64| #[trigger]
            self.nodes().contains_key(ino) ==> 1 <= ino < self.next_ino()
    }

    /// The engine of a file system with the root directory `root`, which
    /// gets the first inode number, 1.
    pub fn new(root: D) -> (engine: Engine<D, F>)
        ensures
            engine.wf(),
            engine.next_ino() == 2,
            engine.nodes().dom() == set![1u64],
            engine.nodes()[1].inner().spec_dispatch() == HandleDispatcher::<D, F>::Dir(root),
    {
        let mut registry = Registry::new();
        let mut ino_generator = InoGenerator::new();
        let ino = ino_generator.generate();
        let handle = Handle::new_dir(ino, root);
        registry.insert(ino, handle);
        assert(registry@.dom() =~= set![1u64]);
        Engine { registry, ino_generator }
    }

    /// Puts `handle`, made for the number that `peek` showed, into the
    /// registry and moves the generator on.
    fn register(&mut self, handle: Handle<D, F>)
        requires
            old(self).wf(),
            old(self).next_ino() < u64::MAX,
            handle.inner().ino() == old(self).next_ino(),
        ensures
            final(self).wf(),
            final(self).next_ino() == old(self).next_ino() + 1,
            final(self).nodes() == old(self).nodes().insert(old(self).next_ino(), handle),
    {
        let ino = self.ino_generator.generate();
        let inserted = self.registry.insert(ino, handle);
        assert(inserted);
    }

    /// Registers a regular file: the next inode number is allocated, a
    /// handle for the object is made and put into the registry.
    ///
    /// The new handle is returned. `None` is returned, and nothing is
    /// changed, only when the inode numbers are used up.
    pub fn add_file(&mut self, object: F) -> (added: Option<Handle<D, F>>)
        requires
            old(self).wf(),
        ensures
            final(self).wf(),
            match added {
                Some(handle) => {
                    &&& old(self).next_ino() < u64::MAX
                    &&& handle.inner().ino() == old(self).next_ino()
                    &&& handle.inner().spec_dispatch() == HandleDispatcher::<D, F>::RegularFile(
                        object,
                    )
                    &&& !old(self).nodes().contains_key(handle.inner().ino())
                    &&& final(self).nodes() == old(self).nodes().insert(
                        handle.inner().ino(),
                        handle,
                    )
                    &&& final(self).next_ino() == old(self).next_ino() + 1
                },
                None => {
                    &&& old(self).next_ino() == u64::MAX
                    &&& final(self).nodes() == old(self).nodes()
                    &&& final(self).next_ino() == old(self).next_ino()
                },
            },
    {
        let ino = self.ino_generator.peek();
        if ino == u64::MAX {
            return None;
        }
        let handle = Handle::new_file(ino, object);
        self.register(handle.clone());
        Some(handle)
    }

    /// Registers a directory: the next inode number is allocated, a
    /// handle for the object is made and put into the registry.
    ///
    /// The new handle is returned. `None` is returned, and nothing is
    /// changed, only when the inode numbers are used up.
    pub fn add_directory(&mut self, object: D) -> (added: Option<Handle<D, F>>)
        requires
            old(self).wf(),
        ensures
            final(self).wf(),
            match added {
                Some(handle) => {
                    &&& old(self).next_ino() < u64::MAX
                    &&& handle.inner().ino() == old(self).next_ino()
                    &&& handle.inner().spec_dispatch() == HandleDispatcher::<D, F>::Dir(object)
                    &&& !old(self).nodes().contains_key(handle.inner().ino())
                    &&& final(self).nodes() == old(self).nodes().insert(
                        handle.inner().ino(),
                        handle,
                    )
                    &&& final(self).next_ino() == old(self).next_ino() + 1
                },
                None => {
                    &&& old(self).next_ino() == u64::MAX
                    &&& final(self).nodes() == old(self).nodes()
                    &&& final(self).next_ino() == old(self).next_ino()
                },
            },
    {
        let ino = self.ino_generator.peek();
        if ino == u64::MAX {
            return None;
        }
        let handle = Handle::new_dir(ino, object);
        self.register(handle.clone());
        Some(handle)
    }

    /// The handle of the node with number `ino`, if there is one.
    pub fn get(&self, ino: u64) -> (found: Option<Handle<D, F>>)
        requires
            self.wf(),
        ensures
            found == if self.nodes().contains_key(ino) {
                Some(self.nodes()[ino])
            } else {
                None
            },
            found matches Some(handle) ==> handle.inner().ino() == ino,
    {
        self.registry.get(ino)
    }

    /// The registry.
    pub fn get_registry(&self) -> (registry: &Registry<D, F>)
        requires
            self.wf(),
        ensures
            registry@ == self.nodes(),
            registry.wf(),
    {
        &self.registry
    }

    /// The generator of inode numbers.
    pub fn get_ino_generator(&self) -> (generator: &InoGenerator)
        ensures
            generator.next() == self.next_ino(),
    {
        &self.ino_generator
    }
}

} // verus!
