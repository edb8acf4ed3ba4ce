//! Directory entries: what a handler returns for a node.

use time::Timespec;
use vstd::prelude::*;
use crate::file::{FileAttr, FileType};
use crate::handler::Handle;

verus! {

/// The name of a node with its attributes.
///
/// An entry is made for a handle, of which it keeps the inode number and
/// the kind; neither changes while the handle lives.
#[derive(Clone, Debug)]
pub struct DirectoryEntry {
    name: String,
    ino: u64,
    kind: FileType,
    size: u64,
    atime: Timespec,
    mtime: Timespec,
    ctime: Timespec,
    crtime: Timespec,
    perm: u16,
    nlink: u32,
    uid: u32,
    gid: u32,
    rdev: u32,
    flags: u32,
    blocks: u64,
    ttl: Timespec,
}

/// The name under which the entry type is known to handlers of any node.
pub type NodeEntry = DirectoryEntry;

/// The mathematical view of an entry.
pub struct DirectoryEntryView {
    pub name: Seq<char>,
    pub ino: u64,
    pub kind: FileType,
    pub size: u64,
    pub atime: Timespec,
    pub mtime: Timespec,
    pub ctime: Timespec,
    pub crtime: Timespec,
    pub perm: u16,
    pub nlink: u32,
    pub uid: u32,
    pub gid: u32,
    pub rdev: u32,
    pub flags: u32,
    pub blocks: u64,
    pub ttl: Timespec,
}

impl View for DirectoryEntry {
    type V = DirectoryEntryView;

    closed spec fn view(&self) -> DirectoryEntryView {
        DirectoryEntryView {
            name: self.name@,
            ino: self.ino,
            kind: self.kind,
            size: self.size,
            atime: self.atime,
            mtime: self.mtime,
            ctime: self.ctime,
            crtime: self.crtime,
            perm: self.perm,
            nlink: self.nlink,
            uid: self.uid,
            gid: self.gid,
            rdev: self.rdev,
            flags: self.flags,
            blocks: self.blocks,
            ttl: self.ttl,
        }
    }
}

/// The start of the epoch.
pub open spec fn epoch() -> Timespec {
    Timespec { sec: 0, nsec: 0 }
}

impl DirectoryEntryView {
    /// The entry that `DirectoryEntry::new` makes: all times at the start
    /// of the epoch, permissions `0o744`, one link, one block, everything
    /// else zero.
    pub open spec fn new(name: Seq<char>, ino: u64, kind: FileType) -> DirectoryEntryView {
        DirectoryEntryView {
            name,
            ino,
            kind,
            size: 0,
            atime: epoch(),
            mtime: epoch(),
            ctime: epoch(),
            crtime: epoch(),
            perm: 0o744,
            nlink: 1,
            uid: 0,
            gid: 0,
            rdev: 0,
            flags: 0,
            blocks: 1,
            ttl: epoch(),
        }
    }

    /// The attributes of the entry.
    pub open spec fn to_attr(self) -> FileAttr {
        FileAttr {
            ino: self.ino,
            size: self.size,
            blocks: self.blocks,
            atime: self.atime,
            mtime: self.mtime,
            ctime: self.ctime,
            crtime: self.crtime,
            kind: self.kind,
            perm: self.perm,
            nlink: self.nlink,
            uid: self.uid,
            gid: self.gid,
            rdev: self.rdev,
            flags: self.flags,
        }
    }
}

impl DirectoryEntry {
    /// Creates a directory entry for the node of `handle`, with the
    /// default attributes.
    pub fn new<D, F>(name: String, handle: Handle<D, F>) -> (entry: DirectoryEntry)
        ensures
            entry@ == DirectoryEntryView::new(name@, handle.inner().ino(), handle.inner().kind()),
    {
        let epoch = Timespec { sec: 0, nsec: 0 };
        DirectoryEntry {
            name,
            ino: handle.get().get_ino(),
            kind: handle.get().get_kind(),
            size: 0,
            atime: epoch,
            mtime: epoch,
            ctime: epoch,
            crtime: epoch,
            perm: 0o744,
            nlink: 1,
            uid: 0,
            gid: 0,
            rdev: 0,
            flags: 0,
            blocks: 1,
            ttl: epoch,
        }
    }

    /// Returns the name of the entry.
    pub fn get_name(&self) -> (name: String)
        ensures
            name@ == self@.name,
    {
        self.name.clone()
    }

    /// Returns the inode number of the node.
    pub fn get_ino(&self) -> (ino: u64)
        ensures
            ino == self@.ino,
    {
        self.ino
    }

    /// Returns the kind of the node.
    pub fn get_kind(&self) -> (kind: FileType)
        ensures
            kind == self@.kind,
    {
        self.kind
    }

    /// Returns the size in bytes.
    pub fn get_size(&self) -> (val: u64)
        ensures
            val == self@.size,
    {
        self.size
    }

    /// Sets the size in bytes, and hands the entry back.
    pub fn size(&mut self, val: u64) -> (this: &Self)
        ensures
            final(self)@ == (DirectoryEntryView { size: val, ..old(self)@ }),
            this@ == final(self)@,
    {
        self.size = val;
        self
    }

    /// Returns the time of last access.
    pub fn get_atime(&self) -> (val: Timespec)
        ensures
            val == self@.atime,
    {
        self.atime
    }

    /// Sets the time of last access, and hands the entry back.
    pub fn atime(&mut self, val: Timespec) -> (this: &Self)
        ensures
            final(self)@ == (DirectoryEntryView { atime: val, ..old(self)@ }),
            this@ == final(self)@,
    {
        self.atime = val;
        self
    }

    /// Returns the time of last modification.
    pub fn get_mtime(&self) -> (val: Timespec)
        ensures
            val == self@.mtime,
    {
        self.mtime
    }

    /// Sets the time of last modification, and hands the entry back.
    pub fn mtime(&mut self, val: Timespec) -> (this: &Self)
        ensures
            final(self)@ == (DirectoryEntryView { mtime: val, ..old(self)@ }),
            this@ == final(self)@,
    {
        self.mtime = val;
        self
    }

    /// Returns the time of last change.
    pub fn get_ctime(&self) -> (val: Timespec)
        ensures
            val == self@.ctime,
    {
        self.ctime
    }

    /// Sets the time of last change, and hands the entry back.
    pub fn ctime(&mut self, val: Timespec) -> (this: &Self)
        ensures
            final(self)@ == (DirectoryEntryView { ctime: val, ..old(self)@ }),
            this@ == final(self)@,
    {
        self.ctime = val;
        self
    }

    /// Returns the time of creation.
    pub fn get_crtime(&self) -> (val: Timespec)
        ensures
            val == self@.crtime,
    {
        self.crtime
    }

    /// Sets the time of creation, and hands the entry back.
    pub fn crtime(&mut self, val: Timespec) -> (this: &Self)
        ensures
            final(self)@ == (DirectoryEntryView { crtime: val, ..old(self)@ }),
            this@ == final(self)@,
    {
        self.crtime = val;
        self
    }

    /// Returns the permission bits.
    pub fn get_perm(&self) -> (val: u16)
        ensures
            val == self@.perm,
    {
        self.perm
    }

    /// Sets the permission bits, and hands the entry back.
    pub fn perm(&mut self, val: u16) -> (this: &Self)
        ensures
            final(self)@ == (DirectoryEntryView { perm: val, ..old(self)@ }),
            this@ == final(self)@,
    {
        self.perm = val;
        self
    }

    /// Returns the number of hard links.
    pub fn get_nlink(&self) -> (val: u32)
        ensures
            val == self@.nlink,
    {
        self.nlink
    }

    /// Sets the number of hard links, and hands the entry back.
    pub fn nlink(&mut self, val: u32) -> (this: &Self)
        ensures
            final(self)@ == (DirectoryEntryView { nlink: val, ..old(self)@ }),
            this@ == final(self)@,
    {
        self.nlink = val;
        self
    }

    /// Returns the user id of the owner.
    pub fn get_uid(&self) -> (val: u32)
        ensures
            val == self@.uid,
    {
        self.uid
    }

    /// Sets the user id of the owner, and hands the entry back.
    pub fn uid(&mut self, val: u32) -> (this: &Self)
        ensures
            final(self)@ == (DirectoryEntryView { uid: val, ..old(self)@ }),
            this@ == final(self)@,
    {
        self.uid = val;
        self
    }

    /// Returns the group id of the owner.
    pub fn get_gid(&self) -> (val: u32)
        ensures
            val == self@.gid,
    {
        self.gid
    }

    /// Sets the group id of the owner, and hands the entry back.
    pub fn gid(&mut self, val: u32) -> (this: &Self)
        ensures
            final(self)@ == (DirectoryEntryView { gid: val, ..old(self)@ }),
            this@ == final(self)@,
    {
        self.gid = val;
        self
    }

    /// Returns the device number.
    pub fn get_rdev(&self) -> (val: u32)
        ensures
            val == self@.rdev,
    {
        self.rdev
    }

    /// Sets the device number, and hands the entry back.
    pub fn rdev(&mut self, val: u32) -> (this: &Self)
        ensures
            final(self)@ == (DirectoryEntryView { rdev: val, ..old(self)@ }),
            this@ == final(self)@,
    {
        self.rdev = val;
        self
    }

    /// Returns the flags.
    pub fn get_flags(&self) -> (val: u32)
        ensures
            val == self@.flags,
    {
        self.flags
    }

    /// Sets the flags, and hands the entry back.
    pub fn flags(&mut self, val: u32) -> (this: &Self)
        ensures
            final(self)@ == (DirectoryEntryView { flags: val, ..old(self)@ }),
            this@ == final(self)@,
    {
        self.flags = val;
        self
    }

    /// Returns the size in blocks.
    pub fn get_blocks(&self) -> (val: u64)
        ensures
            val == self@.blocks,
    {
        self.blocks
    }

    /// Sets the size in blocks, and hands the entry back.
    pub fn blocks(&mut self, val: u64) -> (this: &Self)
        ensures
            final(self)@ == (DirectoryEntryView { blocks: val, ..old(self)@ }),
            this@ == final(self)@,
    {
        self.blocks = val;
        self
    }

    /// Returns the time for which the kernel may keep the entry before it asks again.
    pub fn get_ttl(&self) -> (val: Timespec)
        ensures
            val == self@.ttl,
    {
        self.ttl
    }

    /// Sets the time for which the kernel may keep the entry before it asks again, and hands the entry back.
    pub fn ttl(&mut self, val: Timespec) -> (this: &Self)
        ensures
            final(self)@ == (DirectoryEntryView { ttl: val, ..old(self)@ }),
            this@ == final(self)@,
    {
        self.ttl = val;
        self
    }

    /// The attributes of the entry.
    pub fn to_attr(&self) -> (attr: FileAttr)
        ensures
            attr == self@.to_attr(),
    {
        FileAttr {
            ino: self.ino,
            size: self.size,
            blocks: self.blocks,
            atime: self.atime,
            mtime: self.mtime,
            ctime: self.ctime,
            crtime: self.crtime,
            kind: self.kind,
            perm: self.perm,
            nlink: self.nlink,
            uid: self.uid,
            gid: self.gid,
            rdev: self.rdev,
            flags: self.flags,
        }
    }

    /// What a directory listing says of the entry: inode number, kind and
    /// name.
    pub fn to_reply(&self) -> (reply: (u64, FileType, String))
        ensures
            reply.0 == self@.ino,
            reply.1 == self@.kind,
            reply.2@ == self@.name,
    {
        (self.ino, self.kind, self.name.clone())
    }
}

} // verus!
