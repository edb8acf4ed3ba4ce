//! The fixed-layout structures of the FUSE kernel interface, version 7.8,
//! each with its image on the wire.
//!
//! No structure has hidden padding: the image of a structure is the images
//! of its fields, one after the other, every integer little-endian.
#![allow(non_camel_case_types)]

use vstd::prelude::*;
use crate::wire::{
    get_i32, get_i64, get_u32, get_u64, group_wire, i32_at, i32_le, i64_at, i64_le,
    lemma_concat_assoc, put_i32, put_i64, put_u32, put_u64, u32_at, u32_le, u64_at, u64_le,
};

verus! {

/// A value with a fixed-size image on the wire.
pub trait Wire: Sized {
    /// The number of bytes in the image of any value of this type.
    spec fn wire_len() -> nat;

    /// The image of the value.
    spec fn wire(&self) -> Seq<u8>;

    /// The value whose image starts at byte `at` of `s`.
    spec fn wire_at(s: Seq<u8>, at: int) -> Self;

    /// An image has the type's length, and reading it back from any frame
    /// that holds it gives the value again.
    proof fn lemma_wire_at(&self, pre: Seq<u8>, post: Seq<u8>)
        ensures
            self.wire().len() == Self::wire_len(),
            Self::wire_at(pre + self.wire() + post, pre.len() as int) == *self,
    ;

    /// Reading looks at the value's own bytes only: what follows them does
    /// not matter.
    proof fn lemma_wire_window(s: Seq<u8>, head: Seq<u8>)
        requires
            Self::wire_len() <= s.len(),
            head == s.subrange(0, Self::wire_len() as int),
        ensures
            Self::wire_at(head, 0) == Self::wire_at(s, 0),
    ;

    /// The number of bytes in the image.
    fn size() -> (n: usize)
        ensures
            n == Self::wire_len(),
    ;

    /// Appends the image of the value to `out`.
    fn put(&self, out: &mut Vec<u8>)
        ensures
            final(out)@ == old(out)@ + self.wire(),
            self.wire().len() == Self::wire_len(),
    ;

    /// Reads the value whose image starts at byte `at` of `bytes`.
    fn get(bytes: &[u8], at: usize) -> (v: Self)
        requires
            at + Self::wire_len() <= bytes@.len(),
        ensures
            v == Self::wire_at(bytes@, at as int),
    ;
}

/// Attributes of one node, as the kernel wants them.
#[derive(Clone, Copy, Debug, PartialEq, Eq, Structural)]
pub struct fuse_attr {
    pub ino: u64,
    pub size: u64,
    pub blocks: u64,
    pub atime: i64,
    pub mtime: i64,
    pub ctime: i64,
    pub atimensec: i32,
    pub mtimensec: i32,
    pub ctimensec: i32,
    pub mode: u32,
    pub nlink: u32,
    pub uid: u32,
    pub gid: u32,
    pub rdev: u32,
}

impl Wire for fuse_attr {
    open spec fn wire_len() -> nat {
        80
    }

    open spec fn wire(&self) -> Seq<u8> {
        u64_le(self.ino)
            + u64_le(self.size)
            + u64_le(self.blocks)
            + i64_le(self.atime)
            + i64_le(self.mtime)
            + i64_le(self.ctime)
            + i32_le(self.atimensec)
            + i32_le(self.mtimensec)
            + i32_le(self.ctimensec)
            + u32_le(self.mode)
            + u32_le(self.nlink)
            + u32_le(self.uid)
            + u32_le(self.gid)
            + u32_le(self.rdev)
    }

    open spec fn wire_at(s: Seq<u8>, at: int) -> Self {
        fuse_attr {
            ino: u64_at(s, at),
            size: u64_at(s, at + 8),
            blocks: u64_at(s, at + 16),
            atime: i64_at(s, at + 24),
            mtime: i64_at(s, at + 32),
            ctime: i64_at(s, at + 40),
            atimensec: i32_at(s, at + 48),
            mtimensec: i32_at(s, at + 52),
            ctimensec: i32_at(s, at + 56),
            mode: u32_at(s, at + 60),
            nlink: u32_at(s, at + 64),
            uid: u32_at(s, at + 68),
            gid: u32_at(s, at + 72),
            rdev: u32_at(s, at + 76),
        }
    }

    proof fn lemma_wire_at(&self, pre: Seq<u8>, post: Seq<u8>) {
        broadcast use group_wire;
    }

    proof fn lemma_wire_window(s: Seq<u8>, head: Seq<u8>) {
        broadcast use group_wire;
        assert(s =~= head + s.skip(80));
    }

    fn size() -> (n: usize) {
        80
    }

    fn put(&self, out: &mut Vec<u8>) {
        put_u64(out, self.ino);
        put_u64(out, self.size);
        put_u64(out, self.blocks);
        put_i64(out, self.atime);
        put_i64(out, self.mtime);
        put_i64(out, self.ctime);
        put_i32(out, self.atimensec);
        put_i32(out, self.mtimensec);
        put_i32(out, self.ctimensec);
        put_u32(out, self.mode);
        put_u32(out, self.nlink);
        put_u32(out, self.uid);
        put_u32(out, self.gid);
        put_u32(out, self.rdev);
        proof {
            broadcast use lemma_concat_assoc;
        }
    }

    fn get(bytes: &[u8], at: usize) -> (v: Self) {
        let len: usize = bytes.len();
        assert(at + 80 <= len);
        fuse_attr {
            ino: get_u64(bytes, at),
            size: get_u64(bytes, at + 8),
            blocks: get_u64(bytes, at + 16),
            atime: get_i64(bytes, at + 24),
            mtime: get_i64(bytes, at + 32),
            ctime: get_i64(bytes, at + 40),
            atimensec: get_i32(bytes, at + 48),
            mtimensec: get_i32(bytes, at + 52),
            ctimensec: get_i32(bytes, at + 56),
            mode: get_u32(bytes, at + 60),
            nlink: get_u32(bytes, at + 64),
            uid: get_u32(bytes, at + 68),
            gid: get_u32(bytes, at + 72),
            rdev: get_u32(bytes, at + 76),
        }
    }
}

/// File system statistics.
#[derive(Clone, Copy, Debug, PartialEq, Eq, Structural)]
pub struct fuse_kstatfs {
    pub blocks: u64,
    pub bfree: u64,
    pub bavail: u64,
    pub files: u64,
    pub ffree: u64,
    pub bsize: u32,
    pub namelen: u32,
    pub frsize: u32,
    pub padding: u32,
    pub spare0: u32,
    pub spare1: u32,
    pub spare2: u32,
    pub spare3: u32,
    pub spare4: u32,
    pub spare5: u32,
}

impl Wire for fuse_kstatfs {
    open spec fn wire_len() -> nat {
        80
    }

    open spec fn wire(&self) -> Seq<u8> {
        u64_le(self.blocks)
            + u64_le(self.bfree)
            + u64_le(self.bavail)
            + u64_le(self.files)
            + u64_le(self.ffree)
            + u32_le(self.bsize)
            + u32_le(self.namelen)
            + u32_le(self.frsize)
            + u32_le(self.padding)
            + u32_le(self.spare0)
            + u32_le(self.spare1)
            + u32_le(self.spare2)
            + u32_le(self.spare3)
            + u32_le(self.spare4)
            + u32_le(self.spare5)
    }

    open spec fn wire_at(s: Seq<u8>, at: int) -> Self {
        fuse_kstatfs {
            blocks: u64_at(s, at),
            bfree: u64_at(s, at + 8),
            bavail: u64_at(s, at + 16),
            files: u64_at(s, at + 24),
            ffree: u64_at(s, at + 32),
            bsize: u32_at(s, at + 40),
            namelen: u32_at(s, at + 44),
            frsize: u32_at(s, at + 48),
            padding: u32_at(s, at + 52),
            spare0: u32_at(s, at + 56),
            spare1: u32_at(s, at + 60),
            spare2: u32_at(s, at + 64),
            spare3: u32_at(s, at + 68),
            spare4: u32_at(s, at + 72),
            spare5: u32_at(s, at + 76),
        }
    }

    proof fn lemma_wire_at(&self, pre: Seq<u8>, post: Seq<u8>) {
        broadcast use group_wire;
    }

    proof fn lemma_wire_window(s: Seq<u8>, head: Seq<u8>) {
        broadcast use group_wire;
        assert(s =~= head + s.skip(80));
    }

    fn size() -> (n: usize) {
        80
    }

    fn put(&self, out: &mut Vec<u8>) {
        put_u64(out, self.blocks);
        put_u64(out, self.bfree);
        put_u64(out, self.bavail);
        put_u64(out, self.files);
        put_u64(out, self.ffree);
        put_u32(out, self.bsize);
        put_u32(out, self.namelen);
        put_u32(out, self.frsize);
        put_u32(out, self.padding);
        put_u32(out, self.spare0);
        put_u32(out, self.spare1);
        put_u32(out, self.spare2);
        put_u32(out, self.spare3);
        put_u32(out, self.spare4);
        put_u32(out, self.spare5);
        proof {
            broadcast use lemma_concat_assoc;
        }
    }

    fn get(bytes: &[u8], at: usize) -> (v: Self) {
        let len: usize = bytes.len();
        assert(at + 80 <= len);
        fuse_kstatfs {
            blocks: get_u64(bytes, at),
            bfree: get_u64(bytes, at + 8),
            bavail: get_u64(bytes, at + 16),
            files: get_u64(bytes, at + 24),
            ffree: get_u64(bytes, at + 32),
            bsize: get_u32(bytes, at + 40),
            namelen: get_u32(bytes, at + 44),
            frsize: get_u32(bytes, at + 48),
            padding: get_u32(bytes, at + 52),
            spare0: get_u32(bytes, at + 56),
            spare1: get_u32(bytes, at + 60),
            spare2: get_u32(bytes, at + 64),
            spare3: get_u32(bytes, at + 68),
            spare4: get_u32(bytes, at + 72),
            spare5: get_u32(bytes, at + 76),
        }
    }
}

/// One byte-range lock.
#[derive(Clone, Copy, Debug, PartialEq, Eq, Structural)]
pub struct fuse_file_lock {
    pub start: u64,
    pub end: u64,
    pub typ: u32,
    pub pid: u32,
}

impl Wire for fuse_file_lock {
    open spec fn wire_len() -> nat {
        24
    }

    open spec fn wire(&self) -> Seq<u8> {
        u64_le(self.start)
            + u64_le(self.end)
            + u32_le(self.typ)
            + u32_le(self.pid)
    }

    open spec fn wire_at(s: Seq<u8>, at: int) -> Self {
        fuse_file_lock {
            start: u64_at(s, at),
            end: u64_at(s, at + 8),
            typ: u32_at(s, at + 16),
            pid: u32_at(s, at + 20),
        }
    }

    proof fn lemma_wire_at(&self, pre: Seq<u8>, post: Seq<u8>) {
        broadcast use group_wire;
    }

    proof fn lemma_wire_window(s: Seq<u8>, head: Seq<u8>) {
        broadcast use group_wire;
        assert(s =~= head + s.skip(24));
    }

    fn size() -> (n: usize) {
        24
    }

    fn put(&self, out: &mut Vec<u8>) {
        put_u64(out, self.start);
        put_u64(out, self.end);
        put_u32(out, self.typ);
        put_u32(out, self.pid);
        proof {
            broadcast use lemma_concat_assoc;
        }
    }

    fn get(bytes: &[u8], at: usize) -> (v: Self) {
        let len: usize = bytes.len();
        assert(at + 24 <= len);
        fuse_file_lock {
            start: get_u64(bytes, at),
            end: get_u64(bytes, at + 8),
            typ: get_u32(bytes, at + 16),
            pid: get_u32(bytes, at + 20),
        }
    }
}

/// Reply to the requests that name a node.
#[derive(Clone, Copy, Debug, PartialEq, Eq, Structural)]
pub struct fuse_entry_out {
    pub nodeid: u64,
    pub generation: u64,
    pub entry_valid: i64,
    pub attr_valid: i64,
    pub entry_valid_nsec: i32,
    pub attr_valid_nsec: i32,
    pub attr: fuse_attr,
}

impl Wire for fuse_entry_out {
    open spec fn wire_len() -> nat {
        120
    }

    open spec fn wire(&self) -> Seq<u8> {
        u64_le(self.nodeid)
            + u64_le(self.generation)
            + i64_le(self.entry_valid)
            + i64_le(self.attr_valid)
            + i32_le(self.entry_valid_nsec)
            + i32_le(self.attr_valid_nsec)
            + self.attr.wire()
    }

    open spec fn wire_at(s: Seq<u8>, at: int) -> Self {
        fuse_entry_out {
            nodeid: u64_at(s, at),
            generation: u64_at(s, at + 8),
            entry_valid: i64_at(s, at + 16),
            attr_valid: i64_at(s, at + 24),
            entry_valid_nsec: i32_at(s, at + 32),
            attr_valid_nsec: i32_at(s, at + 36),
            attr: fuse_attr::wire_at(s, at + 40),
        }
    }

    proof fn lemma_wire_at(&self, pre: Seq<u8>, post: Seq<u8>) {
        broadcast use group_wire;
        self.attr.lemma_wire_at(Seq::empty(), Seq::empty());
    }

    proof fn lemma_wire_window(s: Seq<u8>, head: Seq<u8>) {
        broadcast use group_wire;
        assert(s =~= head + s.skip(120));
    }

    fn size() -> (n: usize) {
        120
    }

    fn put(&self, out: &mut Vec<u8>) {
        put_u64(out, self.nodeid);
        put_u64(out, self.generation);
        put_i64(out, self.entry_valid);
        put_i64(out, self.attr_valid);
        put_i32(out, self.entry_valid_nsec);
        put_i32(out, self.attr_valid_nsec);
        self.attr.put(out);
        proof {
            broadcast use lemma_concat_assoc;
        }
    }

    fn get(bytes: &[u8], at: usize) -> (v: Self) {
        let len: usize = bytes.len();
        assert(at + 120 <= len);
        fuse_entry_out {
            nodeid: get_u64(bytes, at),
            generation: get_u64(bytes, at + 8),
            entry_valid: get_i64(bytes, at + 16),
            attr_valid: get_i64(bytes, at + 24),
            entry_valid_nsec: get_i32(bytes, at + 32),
            attr_valid_nsec: get_i32(bytes, at + 36),
            attr: fuse_attr::get(bytes, at + 40),
        }
    }
}

/// Body of a forget request.
#[derive(Clone, Copy, Debug, PartialEq, Eq, Structural)]
pub struct fuse_forget_in {
    pub nlookup: u64,
}

impl Wire for fuse_forget_in {
    open spec fn wire_len() -> nat {
        8
    }

    open spec fn wire(&self) -> Seq<u8> {
        u64_le(self.nlookup)
    }

    open spec fn wire_at(s: Seq<u8>, at: int) -> Self {
        fuse_forget_in {
            nlookup: u64_at(s, at),
        }
    }

    proof fn lemma_wire_at(&self, pre: Seq<u8>, post: Seq<u8>) {
        broadcast use group_wire;
    }

    proof fn lemma_wire_window(s: Seq<u8>, head: Seq<u8>) {
        broadcast use group_wire;
        assert(s =~= head + s.skip(8));
    }

    fn size() -> (n: usize) {
        8
    }

    fn put(&self, out: &mut Vec<u8>) {
        put_u64(out, self.nlookup);
    }

    fn get(bytes: &[u8], at: usize) -> (v: Self) {
        let len: usize = bytes.len();
        assert(at + 8 <= len);
        fuse_forget_in {
            nlookup: get_u64(bytes, at),
        }
    }
}

/// Reply that carries attributes.
#[derive(Clone, Copy, Debug, PartialEq, Eq, Structural)]
pub struct fuse_attr_out {
    pub attr_valid: i64,
    pub attr_valid_nsec: i32,
    pub dummy: u32,
    pub attr: fuse_attr,
}

impl Wire for fuse_attr_out {
    open spec fn wire_len() -> nat {
        96
    }

    open spec fn wire(&self) -> Seq<u8> {
        i64_le(self.attr_valid)
            + i32_le(self.attr_valid_nsec)
            + u32_le(self.dummy)
            + self.attr.wire()
    }

    open spec fn wire_at(s: Seq<u8>, at: int) -> Self {
        fuse_attr_out {
            attr_valid: i64_at(s, at),
            attr_valid_nsec: i32_at(s, at + 8),
            dummy: u32_at(s, at + 12),
            attr: fuse_attr::wire_at(s, at + 16),
        }
    }

    proof fn lemma_wire_at(&self, pre: Seq<u8>, post: Seq<u8>) {
        broadcast use group_wire;
        self.attr.lemma_wire_at(Seq::empty(), Seq::empty());
    }

    proof fn lemma_wire_window(s: Seq<u8>, head: Seq<u8>) {
        broadcast use group_wire;
        assert(s =~= head + s.skip(96));
    }

    fn size() -> (n: usize) {
        96
    }

    fn put(&self, out: &mut Vec<u8>) {
        put_i64(out, self.attr_valid);
        put_i32(out, self.attr_valid_nsec);
        put_u32(out, self.dummy);
        self.attr.put(out);
        proof {
            broadcast use lemma_concat_assoc;
        }
    }

    fn get(bytes: &[u8], at: usize) -> (v: Self) {
        let len: usize = bytes.len();
        assert(at + 96 <= len);
        fuse_attr_out {
            attr_valid: get_i64(bytes, at),
            attr_valid_nsec: get_i32(bytes, at + 8),
            dummy: get_u32(bytes, at + 12),
            attr: fuse_attr::get(bytes, at + 16),
        }
    }
}

/// Fixed part of a mknod request.
#[derive(Clone, Copy, Debug, PartialEq, Eq, Structural)]
pub struct fuse_mknod_in {
    pub mode: u32,
    pub rdev: u32,
}

impl Wire for fuse_mknod_in {
    open spec fn wire_len() -> nat {
        8
    }

    open spec fn wire(&self) -> Seq<u8> {
        u32_le(self.mode)
            + u32_le(self.rdev)
    }

    open spec fn wire_at(s: Seq<u8>, at: int) -> Self {
        fuse_mknod_in {
            mode: u32_at(s, at),
            rdev: u32_at(s, at + 4),
        }
    }

    proof fn lemma_wire_at(&self, pre: Seq<u8>, post: Seq<u8>) {
        broadcast use group_wire;
    }

    proof fn lemma_wire_window(s: Seq<u8>, head: Seq<u8>) {
        broadcast use group_wire;
        assert(s =~= head + s.skip(8));
    }

    fn size() -> (n: usize) {
        8
    }

    fn put(&self, out: &mut Vec<u8>) {
        put_u32(out, self.mode);
        put_u32(out, self.rdev);
        proof {
            broadcast use lemma_concat_assoc;
        }
    }

    fn get(bytes: &[u8], at: usize) -> (v: Self) {
        let len: usize = bytes.len();
        assert(at + 8 <= len);
        fuse_mknod_in {
            mode: get_u32(bytes, at),
            rdev: get_u32(bytes, at + 4),
        }
    }
}

/// Fixed part of a rename request.
#[derive(Clone, Copy, Debug, PartialEq, Eq, Structural)]
pub struct fuse_rename_in {
    pub newdir: u64,
}

impl Wire for fuse_rename_in {
    open spec fn wire_len() -> nat {
        8
    }

    open spec fn wire(&self) -> Seq<u8> {
        u64_le(self.newdir)
    }

    open spec fn wire_at(s: Seq<u8>, at: int) -> Self {
        fuse_rename_in {
            newdir: u64_at(s, at),
        }
    }

    proof fn lemma_wire_at(&self, pre: Seq<u8>, post: Seq<u8>) {
        broadcast use group_wire;
    }

    proof fn lemma_wire_window(s: Seq<u8>, head: Seq<u8>) {
        broadcast use group_wire;
        assert(s =~= head + s.skip(8));
    }

    fn size() -> (n: usize) {
        8
    }

    fn put(&self, out: &mut Vec<u8>) {
        put_u64(out, self.newdir);
    }

    fn get(bytes: &[u8], at: usize) -> (v: Self) {
        let len: usize = bytes.len();
        assert(at + 8 <= len);
        fuse_rename_in {
            newdir: get_u64(bytes, at),
        }
    }
}

/// Fixed part of a link request.
#[derive(Clone, Copy, Debug, PartialEq, Eq, Structural)]
pub struct fuse_link_in {
    pub oldnodeid: u64,
}

impl Wire for fuse_link_in {
    open spec fn wire_len() -> nat {
        8
    }

    open spec fn wire(&self) -> Seq<u8> {
        u64_le(self.oldnodeid)
    }

    open spec fn wire_at(s: Seq<u8>, at: int) -> Self {
        fuse_link_in {
            oldnodeid: u64_at(s, at),
        }
    }

    proof fn lemma_wire_at(&self, pre: Seq<u8>, post: Seq<u8>) {
        broadcast use group_wire;
    }

    proof fn lemma_wire_window(s: Seq<u8>, head: Seq<u8>) {
        broadcast use group_wire;
        assert(s =~= head + s.skip(8));
    }

    fn size() -> (n: usize) {
        8
    }

    fn put(&self, out: &mut Vec<u8>) {
        put_u64(out, self.oldnodeid);
    }

    fn get(bytes: &[u8], at: usize) -> (v: Self) {
        let len: usize = bytes.len();
        assert(at + 8 <= len);
        fuse_link_in {
            oldnodeid: get_u64(bytes, at),
        }
    }
}

/// Body of a setattr request.
#[derive(Clone, Copy, Debug, PartialEq, Eq, Structural)]
pub struct fuse_setattr_in {
    pub valid: u32,
    pub padding: u32,
    pub fh: u64,
    pub size: u64,
    pub unused1: u64,
    pub atime: i64,
    pub mtime: i64,
    pub unused2: u64,
    pub atimensec: i32,
    pub mtimensec: i32,
    pub unused3: u32,
    pub mode: u32,
    pub unused4: u32,
    pub uid: u32,
    pub gid: u32,
    pub unused5: u32,
}

impl Wire for fuse_setattr_in {
    open spec fn wire_len() -> nat {
        88
    }

    open spec fn wire(&self) -> Seq<u8> {
        u32_le(self.valid)
            + u32_le(self.padding)
            + u64_le(self.fh)
            + u64_le(self.size)
            + u64_le(self.unused1)
            + i64_le(self.atime)
            + i64_le(self.mtime)
            + u64_le(self.unused2)
            + i32_le(self.atimensec)
            + i32_le(self.mtimensec)
            + u32_le(self.unused3)
            + u32_le(self.mode)
            + u32_le(self.unused4)
            + u32_le(self.uid)
            + u32_le(self.gid)
            + u32_le(self.unused5)
    }

    open spec fn wire_at(s: Seq<u8>, at: int) -> Self {
        fuse_setattr_in {
            valid: u32_at(s, at),
            padding: u32_at(s, at + 4),
            fh: u64_at(s, at + 8),
            size: u64_at(s, at + 16),
            unused1: u64_at(s, at + 24),
            atime: i64_at(s, at + 32),
            mtime: i64_at(s, at + 40),
            unused2: u64_at(s, at + 48),
            atimensec: i32_at(s, at + 56),
            mtimensec: i32_at(s, at + 60),
            unused3: u32_at(s, at + 64),
            mode: u32_at(s, at + 68),
            unused4: u32_at(s, at + 72),
            uid: u32_at(s, at + 76),
            gid: u32_at(s, at + 80),
            unused5: u32_at(s, at + 84),
        }
    }

    proof fn lemma_wire_at(&self, pre: Seq<u8>, post: Seq<u8>) {
        broadcast use group_wire;
    }

    proof fn lemma_wire_window(s: Seq<u8>, head: Seq<u8>) {
        broadcast use group_wire;
        assert(s =~= head + s.skip(88));
    }

    fn size() -> (n: usize) {
        88
    }

    fn put(&self, out: &mut Vec<u8>) {
        put_u32(out, self.valid);
        put_u32(out, self.padding);
        put_u64(out, self.fh);
        put_u64(out, self.size);
        put_u64(out, self.unused1);
        put_i64(out, self.atime);
        put_i64(out, self.mtime);
        put_u64(out, self.unused2);
        put_i32(out, self.atimensec);
        put_i32(out, self.mtimensec);
        put_u32(out, self.unused3);
        put_u32(out, self.mode);
        put_u32(out, self.unused4);
        put_u32(out, self.uid);
        put_u32(out, self.gid);
        put_u32(out, self.unused5);
        proof {
            broadcast use lemma_concat_assoc;
        }
    }

    fn get(bytes: &[u8], at: usize) -> (v: Self) {
        let len: usize = bytes.len();
        assert(at + 88 <= len);
        fuse_setattr_in {
            valid: get_u32(bytes, at),
            padding: get_u32(bytes, at + 4),
            fh: get_u64(bytes, at + 8),
            size: get_u64(bytes, at + 16),
            unused1: get_u64(bytes, at + 24),
            atime: get_i64(bytes, at + 32),
            mtime: get_i64(bytes, at + 40),
            unused2: get_u64(bytes, at + 48),
            atimensec: get_i32(bytes, at + 56),
            mtimensec: get_i32(bytes, at + 60),
            unused3: get_u32(bytes, at + 64),
            mode: get_u32(bytes, at + 68),
            unused4: get_u32(bytes, at + 72),
            uid: get_u32(bytes, at + 76),
            gid: get_u32(bytes, at + 80),
            unused5: get_u32(bytes, at + 84),
        }
    }
}

/// Body of an open, opendir or create request.
#[derive(Clone, Copy, Debug, PartialEq, Eq, Structural)]
pub struct fuse_open_in {
    pub flags: u32,
    pub mode: u32,
}

impl Wire for fuse_open_in {
    open spec fn wire_len() -> nat {
        8
    }

    open spec fn wire(&self) -> Seq<u8> {
        u32_le(self.flags)
            + u32_le(self.mode)
    }

    open spec fn wire_at(s: Seq<u8>, at: int) -> Self {
        fuse_open_in {
            flags: u32_at(s, at),
            mode: u32_at(s, at + 4),
        }
    }

    proof fn lemma_wire_at(&self, pre: Seq<u8>, post: Seq<u8>) {
        broadcast use group_wire;
    }

    proof fn lemma_wire_window(s: Seq<u8>, head: Seq<u8>) {
        broadcast use group_wire;
        assert(s =~= head + s.skip(8));
    }

    fn size() -> (n: usize) {
        8
    }

    fn put(&self, out: &mut Vec<u8>) {
        put_u32(out, self.flags);
        put_u32(out, self.mode);
        proof {
            broadcast use lemma_concat_assoc;
        }
    }

    fn get(bytes: &[u8], at: usize) -> (v: Self) {
        let len: usize = bytes.len();
        assert(at + 8 <= len);
        fuse_open_in {
            flags: get_u32(bytes, at),
            mode: get_u32(bytes, at + 4),
        }
    }
}

/// Reply to open and opendir.
#[derive(Clone, Copy, Debug, PartialEq, Eq, Structural)]
pub struct fuse_open_out {
    pub fh: u64,
    pub open_flags: u32,
    pub padding: u32,
}

impl Wire for fuse_open_out {
    open spec fn wire_len() -> nat {
        16
    }

    open spec fn wire(&self) -> Seq<u8> {
        u64_le(self.fh)
            + u32_le(self.open_flags)
            + u32_le(self.padding)
    }

    open spec fn wire_at(s: Seq<u8>, at: int) -> Self {
        fuse_open_out {
            fh: u64_at(s, at),
            open_flags: u32_at(s, at + 8),
            padding: u32_at(s, at + 12),
        }
    }

    proof fn lemma_wire_at(&self, pre: Seq<u8>, post: Seq<u8>) {
        broadcast use group_wire;
    }

    proof fn lemma_wire_window(s: Seq<u8>, head: Seq<u8>) {
        broadcast use group_wire;
        assert(s =~= head + s.skip(16));
    }

    fn size() -> (n: usize) {
        16
    }

    fn put(&self, out: &mut Vec<u8>) {
        put_u64(out, self.fh);
        put_u32(out, self.open_flags);
        put_u32(out, self.padding);
        proof {
            broadcast use lemma_concat_assoc;
        }
    }

    fn get(bytes: &[u8], at: usize) -> (v: Self) {
        let len: usize = bytes.len();
        assert(at + 16 <= len);
        fuse_open_out {
            fh: get_u64(bytes, at),
            open_flags: get_u32(bytes, at + 8),
            padding: get_u32(bytes, at + 12),
        }
    }
}

/// Body of a release or releasedir request.
#[derive(Clone, Copy, Debug, PartialEq, Eq, Structural)]
pub struct fuse_release_in {
    pub fh: u64,
    pub flags: u32,
    pub release_flags: u32,
    pub lock_owner: u64,
}

impl Wire for fuse_release_in {
    open spec fn wire_len() -> nat {
        24
    }

    open spec fn wire(&self) -> Seq<u8> {
        u64_le(self.fh)
            + u32_le(self.flags)
            + u32_le(self.release_flags)
            + u64_le(self.lock_owner)
    }

    open spec fn wire_at(s: Seq<u8>, at: int) -> Self {
        fuse_release_in {
            fh: u64_at(s, at),
            flags: u32_at(s, at + 8),
            release_flags: u32_at(s, at + 12),
            lock_owner: u64_at(s, at + 16),
        }
    }

    proof fn lemma_wire_at(&self, pre: Seq<u8>, post: Seq<u8>) {
        broadcast use group_wire;
    }

    proof fn lemma_wire_window(s: Seq<u8>, head: Seq<u8>) {
        broadcast use group_wire;
        assert(s =~= head + s.skip(24));
    }

    fn size() -> (n: usize) {
        24
    }

    fn put(&self, out: &mut Vec<u8>) {
        put_u64(out, self.fh);
        put_u32(out, self.flags);
        put_u32(out, self.release_flags);
        put_u64(out, self.lock_owner);
        proof {
            broadcast use lemma_concat_assoc;
        }
    }

    fn get(bytes: &[u8], at: usize) -> (v: Self) {
        let len: usize = bytes.len();
        assert(at + 24 <= len);
        fuse_release_in {
            fh: get_u64(bytes, at),
            flags: get_u32(bytes, at + 8),
            release_flags: get_u32(bytes, at + 12),
            lock_owner: get_u64(bytes, at + 16),
        }
    }
}

/// Body of a flush request.
#[derive(Clone, Copy, Debug, PartialEq, Eq, Structural)]
pub struct fuse_flush_in {
    pub fh: u64,
    pub unused: u32,
    pub padding: u32,
    pub lock_owner: u64,
}

impl Wire for fuse_flush_in {
    open spec fn wire_len() -> nat {
        24
    }

    open spec fn wire(&self) -> Seq<u8> {
        u64_le(self.fh)
            + u32_le(self.unused)
            + u32_le(self.padding)
            + u64_le(self.lock_owner)
    }

    open spec fn wire_at(s: Seq<u8>, at: int) -> Self {
        fuse_flush_in {
            fh: u64_at(s, at),
            unused: u32_at(s, at + 8),
            padding: u32_at(s, at + 12),
            lock_owner: u64_at(s, at + 16),
        }
    }

    proof fn lemma_wire_at(&self, pre: Seq<u8>, post: Seq<u8>) {
        broadcast use group_wire;
    }

    proof fn lemma_wire_window(s: Seq<u8>, head: Seq<u8>) {
        broadcast use group_wire;
        assert(s =~= head + s.skip(24));
    }

    fn size() -> (n: usize) {
        24
    }

    fn put(&self, out: &mut Vec<u8>) {
        put_u64(out, self.fh);
        put_u32(out, self.unused);
        put_u32(out, self.padding);
        put_u64(out, self.lock_owner);
        proof {
            broadcast use lemma_concat_assoc;
        }
    }

    fn get(bytes: &[u8], at: usize) -> (v: Self) {
        let len: usize = bytes.len();
        assert(at + 24 <= len);
        fuse_flush_in {
            fh: get_u64(bytes, at),
            unused: get_u32(bytes, at + 8),
            padding: get_u32(bytes, at + 12),
            lock_owner: get_u64(bytes, at + 16),
        }
    }
}

/// Body of a read or readdir request.
#[derive(Clone, Copy, Debug, PartialEq, Eq, Structural)]
pub struct fuse_read_in {
    pub fh: u64,
    pub offset: i64,
    pub size: u32,
    pub padding: u32,
}

impl Wire for fuse_read_in {
    open spec fn wire_len() -> nat {
        24
    }

    open spec fn wire(&self) -> Seq<u8> {
        u64_le(self.fh)
            + i64_le(self.offset)
            + u32_le(self.size)
            + u32_le(self.padding)
    }

    open spec fn wire_at(s: Seq<u8>, at: int) -> Self {
        fuse_read_in {
            fh: u64_at(s, at),
            offset: i64_at(s, at + 8),
            size: u32_at(s, at + 16),
            padding: u32_at(s, at + 20),
        }
    }

    proof fn lemma_wire_at(&self, pre: Seq<u8>, post: Seq<u8>) {
        broadcast use group_wire;
    }

    proof fn lemma_wire_window(s: Seq<u8>, head: Seq<u8>) {
        broadcast use group_wire;
        assert(s =~= head + s.skip(24));
    }

    fn size() -> (n: usize) {
        24
    }

    fn put(&self, out: &mut Vec<u8>) {
        put_u64(out, self.fh);
        put_i64(out, self.offset);
        put_u32(out, self.size);
        put_u32(out, self.padding);
        proof {
            broadcast use lemma_concat_assoc;
        }
    }

    fn get(bytes: &[u8], at: usize) -> (v: Self) {
        let len: usize = bytes.len();
        assert(at + 24 <= len);
        fuse_read_in {
            fh: get_u64(bytes, at),
            offset: get_i64(bytes, at + 8),
            size: get_u32(bytes, at + 16),
            padding: get_u32(bytes, at + 20),
        }
    }
}

/// Fixed part of a write request.
#[derive(Clone, Copy, Debug, PartialEq, Eq, Structural)]
pub struct fuse_write_in {
    pub fh: u64,
    pub offset: i64,
    pub size: u32,
    pub write_flags: u32,
}

impl Wire for fuse_write_in {
    open spec fn wire_len() -> nat {
        24
    }

    open spec fn wire(&self) -> Seq<u8> {
        u64_le(self.fh)
            + i64_le(self.offset)
            + u32_le(self.size)
            + u32_le(self.write_flags)
    }

    open spec fn wire_at(s: Seq<u8>, at: int) -> Self {
        fuse_write_in {
            fh: u64_at(s, at),
            offset: i64_at(s, at + 8),
            size: u32_at(s, at + 16),
            write_flags: u32_at(s, at + 20),
        }
    }

    proof fn lemma_wire_at(&self, pre: Seq<u8>, post: Seq<u8>) {
        broadcast use group_wire;
    }

    proof fn lemma_wire_window(s: Seq<u8>, head: Seq<u8>) {
        broadcast use group_wire;
        assert(s =~= head + s.skip(24));
    }

    fn size() -> (n: usize) {
        24
    }

    fn put(&self, out: &mut Vec<u8>) {
        put_u64(out, self.fh);
        put_i64(out, self.offset);
        put_u32(out, self.size);
        put_u32(out, self.write_flags);
        proof {
            broadcast use lemma_concat_assoc;
        }
    }

    fn get(bytes: &[u8], at: usize) -> (v: Self) {
        let len: usize = bytes.len();
        assert(at + 24 <= len);
        fuse_write_in {
            fh: get_u64(bytes, at),
            offset: get_i64(bytes, at + 8),
            size: get_u32(bytes, at + 16),
            write_flags: get_u32(bytes, at + 20),
        }
    }
}

/// Reply to write.
#[derive(Clone, Copy, Debug, PartialEq, Eq, Structural)]
pub struct fuse_write_out {
    pub size: u32,
    pub padding: u32,
}

impl Wire for fuse_write_out {
    open spec fn wire_len() -> nat {
        8
    }

    open spec fn wire(&self) -> Seq<u8> {
        u32_le(self.size)
            + u32_le(self.padding)
    }

    open spec fn wire_at(s: Seq<u8>, at: int) -> Self {
        fuse_write_out {
            size: u32_at(s, at),
            padding: u32_at(s, at + 4),
        }
    }

    proof fn lemma_wire_at(&self, pre: Seq<u8>, post: Seq<u8>) {
        broadcast use group_wire;
    }

    proof fn lemma_wire_window(s: Seq<u8>, head: Seq<u8>) {
        broadcast use group_wire;
        assert(s =~= head + s.skip(8));
    }

    fn size() -> (n: usize) {
        8
    }

    fn put(&self, out: &mut Vec<u8>) {
        put_u32(out, self.size);
        put_u32(out, self.padding);
        proof {
            broadcast use lemma_concat_assoc;
        }
    }

    fn get(bytes: &[u8], at: usize) -> (v: Self) {
        let len: usize = bytes.len();
        assert(at + 8 <= len);
        fuse_write_out {
            size: get_u32(bytes, at),
            padding: get_u32(bytes, at + 4),
        }
    }
}

/// Reply to statfs.
#[derive(Clone, Copy, Debug, PartialEq, Eq, Structural)]
pub struct fuse_statfs_out {
    pub st: fuse_kstatfs,
}

impl Wire for fuse_statfs_out {
    open spec fn wire_len() -> nat {
        80
    }

    open spec fn wire(&self) -> Seq<u8> {
        self.st.wire()
    }

    open spec fn wire_at(s: Seq<u8>, at: int) -> Self {
        fuse_statfs_out {
            st: fuse_kstatfs::wire_at(s, at),
        }
    }

    proof fn lemma_wire_at(&self, pre: Seq<u8>, post: Seq<u8>) {
        broadcast use group_wire;
        self.st.lemma_wire_at(Seq::empty(), Seq::empty());
    }

    proof fn lemma_wire_window(s: Seq<u8>, head: Seq<u8>) {
        broadcast use group_wire;
        assert(s =~= head + s.skip(80));
    }

    fn size() -> (n: usize) {
        80
    }

    fn put(&self, out: &mut Vec<u8>) {
        self.st.put(out);
    }

    fn get(bytes: &[u8], at: usize) -> (v: Self) {
        let len: usize = bytes.len();
        assert(at + 80 <= len);
        fuse_statfs_out {
            st: fuse_kstatfs::get(bytes, at),
        }
    }
}

/// Body of an fsync or fsyncdir request.
#[derive(Clone, Copy, Debug, PartialEq, Eq, Structural)]
pub struct fuse_fsync_in {
    pub fh: u64,
    pub fsync_flags: u32,
    pub padding: u32,
}

impl Wire for fuse_fsync_in {
    open spec fn wire_len() -> nat {
        16
    }

    open spec fn wire(&self) -> Seq<u8> {
        u64_le(self.fh)
            + u32_le(self.fsync_flags)
            + u32_le(self.padding)
    }

    open spec fn wire_at(s: Seq<u8>, at: int) -> Self {
        fuse_fsync_in {
            fh: u64_at(s, at),
            fsync_flags: u32_at(s, at + 8),
            padding: u32_at(s, at + 12),
        }
    }

    proof fn lemma_wire_at(&self, pre: Seq<u8>, post: Seq<u8>) {
        broadcast use group_wire;
    }

    proof fn lemma_wire_window(s: Seq<u8>, head: Seq<u8>) {
        broadcast use group_wire;
        assert(s =~= head + s.skip(16));
    }

    fn size() -> (n: usize) {
        16
    }

    fn put(&self, out: &mut Vec<u8>) {
        put_u64(out, self.fh);
        put_u32(out, self.fsync_flags);
        put_u32(out, self.padding);
        proof {
            broadcast use lemma_concat_assoc;
        }
    }

    fn get(bytes: &[u8], at: usize) -> (v: Self) {
        let len: usize = bytes.len();
        assert(at + 16 <= len);
        fuse_fsync_in {
            fh: get_u64(bytes, at),
            fsync_flags: get_u32(bytes, at + 8),
            padding: get_u32(bytes, at + 12),
        }
    }
}

/// Fixed part of a setxattr request.
#[derive(Clone, Copy, Debug, PartialEq, Eq, Structural)]
pub struct fuse_setxattr_in {
    pub size: u32,
    pub flags: u32,
}

impl Wire for fuse_setxattr_in {
    open spec fn wire_len() -> nat {
        8
    }

    open spec fn wire(&self) -> Seq<u8> {
        u32_le(self.size)
            + u32_le(self.flags)
    }

    open spec fn wire_at(s: Seq<u8>, at: int) -> Self {
        fuse_setxattr_in {
            size: u32_at(s, at),
            flags: u32_at(s, at + 4),
        }
    }

    proof fn lemma_wire_at(&self, pre: Seq<u8>, post: Seq<u8>) {
        broadcast use group_wire;
    }

    proof fn lemma_wire_window(s: Seq<u8>, head: Seq<u8>) {
        broadcast use group_wire;
        assert(s =~= head + s.skip(8));
    }

    fn size() -> (n: usize) {
        8
    }

    fn put(&self, out: &mut Vec<u8>) {
        put_u32(out, self.size);
        put_u32(out, self.flags);
        proof {
            broadcast use lemma_concat_assoc;
        }
    }

    fn get(bytes: &[u8], at: usize) -> (v: Self) {
        let len: usize = bytes.len();
        assert(at + 8 <= len);
        fuse_setxattr_in {
            size: get_u32(bytes, at),
            flags: get_u32(bytes, at + 4),
        }
    }
}

/// Body of a getxattr or listxattr request.
#[derive(Clone, Copy, Debug, PartialEq, Eq, Structural)]
pub struct fuse_getxattr_in {
    pub size: u32,
    pub padding: u32,
}

impl Wire for fuse_getxattr_in {
    open spec fn wire_len() -> nat {
        8
    }

    open spec fn wire(&self) -> Seq<u8> {
        u32_le(self.size)
            + u32_le(self.padding)
    }

    open spec fn wire_at(s: Seq<u8>, at: int) -> Self {
        fuse_getxattr_in {
            size: u32_at(s, at),
            padding: u32_at(s, at + 4),
        }
    }

    proof fn lemma_wire_at(&self, pre: Seq<u8>, post: Seq<u8>) {
        broadcast use group_wire;
    }

    proof fn lemma_wire_window(s: Seq<u8>, head: Seq<u8>) {
        broadcast use group_wire;
        assert(s =~= head + s.skip(8));
    }

    fn size() -> (n: usize) {
        8
    }

    fn put(&self, out: &mut Vec<u8>) {
        put_u32(out, self.size);
        put_u32(out, self.padding);
        proof {
            broadcast use lemma_concat_assoc;
        }
    }

    fn get(bytes: &[u8], at: usize) -> (v: Self) {
        let len: usize = bytes.len();
        assert(at + 8 <= len);
        fuse_getxattr_in {
            size: get_u32(bytes, at),
            padding: get_u32(bytes, at + 4),
        }
    }
}

/// Body of the lock requests.
#[derive(Clone, Copy, Debug, PartialEq, Eq, Structural)]
pub struct fuse_lk_in {
    pub fh: u64,
    pub owner: u64,
    pub lk: fuse_file_lock,
}

impl Wire for fuse_lk_in {
    open spec fn wire_len() -> nat {
        40
    }

    open spec fn wire(&self) -> Seq<u8> {
        u64_le(self.fh)
            + u64_le(self.owner)
            + self.lk.wire()
    }

    open spec fn wire_at(s: Seq<u8>, at: int) -> Self {
        fuse_lk_in {
            fh: u64_at(s, at),
            owner: u64_at(s, at + 8),
            lk: fuse_file_lock::wire_at(s, at + 16),
        }
    }

    proof fn lemma_wire_at(&self, pre: Seq<u8>, post: Seq<u8>) {
        broadcast use group_wire;
        self.lk.lemma_wire_at(Seq::empty(), Seq::empty());
    }

    proof fn lemma_wire_window(s: Seq<u8>, head: Seq<u8>) {
        broadcast use group_wire;
        assert(s =~= head + s.skip(40));
    }

    fn size() -> (n: usize) {
        40
    }

    fn put(&self, out: &mut Vec<u8>) {
        put_u64(out, self.fh);
        put_u64(out, self.owner);
        self.lk.put(out);
        proof {
            broadcast use lemma_concat_assoc;
        }
    }

    fn get(bytes: &[u8], at: usize) -> (v: Self) {
        let len: usize = bytes.len();
        assert(at + 40 <= len);
        fuse_lk_in {
            fh: get_u64(bytes, at),
            owner: get_u64(bytes, at + 8),
            lk: fuse_file_lock::get(bytes, at + 16),
        }
    }
}

/// Reply to getlk.
#[derive(Clone, Copy, Debug, PartialEq, Eq, Structural)]
pub struct fuse_lk_out {
    pub lk: fuse_file_lock,
}

impl Wire for fuse_lk_out {
    open spec fn wire_len() -> nat {
        24
    }

    open spec fn wire(&self) -> Seq<u8> {
        self.lk.wire()
    }

    open spec fn wire_at(s: Seq<u8>, at: int) -> Self {
        fuse_lk_out {
            lk: fuse_file_lock::wire_at(s, at),
        }
    }

    proof fn lemma_wire_at(&self, pre: Seq<u8>, post: Seq<u8>) {
        broadcast use group_wire;
        self.lk.lemma_wire_at(Seq::empty(), Seq::empty());
    }

    proof fn lemma_wire_window(s: Seq<u8>, head: Seq<u8>) {
        broadcast use group_wire;
        assert(s =~= head + s.skip(24));
    }

    fn size() -> (n: usize) {
        24
    }

    fn put(&self, out: &mut Vec<u8>) {
        self.lk.put(out);
    }

    fn get(bytes: &[u8], at: usize) -> (v: Self) {
        let len: usize = bytes.len();
        assert(at + 24 <= len);
        fuse_lk_out {
            lk: fuse_file_lock::get(bytes, at),
        }
    }
}

/// Body of an access request.
#[derive(Clone, Copy, Debug, PartialEq, Eq, Structural)]
pub struct fuse_access_in {
    pub mask: u32,
    pub padding: u32,
}

impl Wire for fuse_access_in {
    open spec fn wire_len() -> nat {
        8
    }

    open spec fn wire(&self) -> Seq<u8> {
        u32_le(self.mask)
            + u32_le(self.padding)
    }

    open spec fn wire_at(s: Seq<u8>, at: int) -> Self {
        fuse_access_in {
            mask: u32_at(s, at),
            padding: u32_at(s, at + 4),
        }
    }

    proof fn lemma_wire_at(&self, pre: Seq<u8>, post: Seq<u8>) {
        broadcast use group_wire;
    }

    proof fn lemma_wire_window(s: Seq<u8>, head: Seq<u8>) {
        broadcast use group_wire;
        assert(s =~= head + s.skip(8));
    }

    fn size() -> (n: usize) {
        8
    }

    fn put(&self, out: &mut Vec<u8>) {
        put_u32(out, self.mask);
        put_u32(out, self.padding);
        proof {
            broadcast use lemma_concat_assoc;
        }
    }

    fn get(bytes: &[u8], at: usize) -> (v: Self) {
        let len: usize = bytes.len();
        assert(at + 8 <= len);
        fuse_access_in {
            mask: get_u32(bytes, at),
            padding: get_u32(bytes, at + 4),
        }
    }
}

/// Body of the init request.
#[derive(Clone, Copy, Debug, PartialEq, Eq, Structural)]
pub struct fuse_init_in {
    pub major: u32,
    pub minor: u32,
    pub max_readahead: u32,
    pub flags: u32,
}

impl Wire for fuse_init_in {
    open spec fn wire_len() -> nat {
        16
    }

    open spec fn wire(&self) -> Seq<u8> {
        u32_le(self.major)
            + u32_le(self.minor)
            + u32_le(self.max_readahead)
            + u32_le(self.flags)
    }

    open spec fn wire_at(s: Seq<u8>, at: int) -> Self {
        fuse_init_in {
            major: u32_at(s, at),
            minor: u32_at(s, at + 4),
            max_readahead: u32_at(s, at + 8),
            flags: u32_at(s, at + 12),
        }
    }

    proof fn lemma_wire_at(&self, pre: Seq<u8>, post: Seq<u8>) {
        broadcast use group_wire;
    }

    proof fn lemma_wire_window(s: Seq<u8>, head: Seq<u8>) {
        broadcast use group_wire;
        assert(s =~= head + s.skip(16));
    }

    fn size() -> (n: usize) {
        16
    }

    fn put(&self, out: &mut Vec<u8>) {
        put_u32(out, self.major);
        put_u32(out, self.minor);
        put_u32(out, self.max_readahead);
        put_u32(out, self.flags);
        proof {
            broadcast use lemma_concat_assoc;
        }
    }

    fn get(bytes: &[u8], at: usize) -> (v: Self) {
        let len: usize = bytes.len();
        assert(at + 16 <= len);
        fuse_init_in {
            major: get_u32(bytes, at),
            minor: get_u32(bytes, at + 4),
            max_readahead: get_u32(bytes, at + 8),
            flags: get_u32(bytes, at + 12),
        }
    }
}

/// Body of a bmap request.
#[derive(Clone, Copy, Debug, PartialEq, Eq, Structural)]
pub struct fuse_bmap_in {
    pub block: u64,
    pub blocksize: u32,
    pub padding: u32,
}

impl Wire for fuse_bmap_in {
    open spec fn wire_len() -> nat {
        16
    }

    open spec fn wire(&self) -> Seq<u8> {
        u64_le(self.block)
            + u32_le(self.blocksize)
            + u32_le(self.padding)
    }

    open spec fn wire_at(s: Seq<u8>, at: int) -> Self {
        fuse_bmap_in {
            block: u64_at(s, at),
            blocksize: u32_at(s, at + 8),
            padding: u32_at(s, at + 12),
        }
    }

    proof fn lemma_wire_at(&self, pre: Seq<u8>, post: Seq<u8>) {
        broadcast use group_wire;
    }

    proof fn lemma_wire_window(s: Seq<u8>, head: Seq<u8>) {
        broadcast use group_wire;
        assert(s =~= head + s.skip(16));
    }

    fn size() -> (n: usize) {
        16
    }

    fn put(&self, out: &mut Vec<u8>) {
        put_u64(out, self.block);
        put_u32(out, self.blocksize);
        put_u32(out, self.padding);
        proof {
            broadcast use lemma_concat_assoc;
        }
    }

    fn get(bytes: &[u8], at: usize) -> (v: Self) {
        let len: usize = bytes.len();
        assert(at + 16 <= len);
        fuse_bmap_in {
            block: get_u64(bytes, at),
            blocksize: get_u32(bytes, at + 8),
            padding: get_u32(bytes, at + 12),
        }
    }
}

/// Reply to bmap.
#[derive(Clone, Copy, Debug, PartialEq, Eq, Structural)]
pub struct fuse_bmap_out {
    pub block: u64,
}

impl Wire for fuse_bmap_out {
    open spec fn wire_len() -> nat {
        8
    }

    open spec fn wire(&self) -> Seq<u8> {
        u64_le(self.block)
    }

    open spec fn wire_at(s: Seq<u8>, at: int) -> Self {
        fuse_bmap_out {
            block: u64_at(s, at),
        }
    }

    proof fn lemma_wire_at(&self, pre: Seq<u8>, post: Seq<u8>) {
        broadcast use group_wire;
    }

    proof fn lemma_wire_window(s: Seq<u8>, head: Seq<u8>) {
        broadcast use group_wire;
        assert(s =~= head + s.skip(8));
    }

    fn size() -> (n: usize) {
        8
    }

    fn put(&self, out: &mut Vec<u8>) {
        put_u64(out, self.block);
    }

    fn get(bytes: &[u8], at: usize) -> (v: Self) {
        let len: usize = bytes.len();
        assert(at + 8 <= len);
        fuse_bmap_out {
            block: get_u64(bytes, at),
        }
    }
}

/// Head of every request frame.
#[derive(Clone, Copy, Debug, PartialEq, Eq, Structural)]
pub struct fuse_in_header {
    pub len: u32,
    pub opcode: u32,
    pub unique: u64,
    pub nodeid: u64,
    pub uid: u32,
    pub gid: u32,
    pub pid: u32,
    pub padding: u32,
}

impl Wire for fuse_in_header {
    open spec fn wire_len() -> nat {
        40
    }

    open spec fn wire(&self) -> Seq<u8> {
        u32_le(self.len)
            + u32_le(self.opcode)
            + u64_le(self.unique)
            + u64_le(self.nodeid)
            + u32_le(self.uid)
            + u32_le(self.gid)
            + u32_le(self.pid)
            + u32_le(self.padding)
    }

    open spec fn wire_at(s: Seq<u8>, at: int) -> Self {
        fuse_in_header {
            len: u32_at(s, at),
            opcode: u32_at(s, at + 4),
            unique: u64_at(s, at + 8),
            nodeid: u64_at(s, at + 16),
            uid: u32_at(s, at + 24),
            gid: u32_at(s, at + 28),
            pid: u32_at(s, at + 32),
            padding: u32_at(s, at + 36),
        }
    }

    proof fn lemma_wire_at(&self, pre: Seq<u8>, post: Seq<u8>) {
        broadcast use group_wire;
    }

    proof fn lemma_wire_window(s: Seq<u8>, head: Seq<u8>) {
        broadcast use group_wire;
        assert(s =~= head + s.skip(40));
    }

    fn size() -> (n: usize) {
        40
    }

    fn put(&self, out: &mut Vec<u8>) {
        put_u32(out, self.len);
        put_u32(out, self.opcode);
        put_u64(out, self.unique);
        put_u64(out, self.nodeid);
        put_u32(out, self.uid);
        put_u32(out, self.gid);
        put_u32(out, self.pid);
        put_u32(out, self.padding);
        proof {
            broadcast use lemma_concat_assoc;
        }
    }

    fn get(bytes: &[u8], at: usize) -> (v: Self) {
        let len: usize = bytes.len();
        assert(at + 40 <= len);
        fuse_in_header {
            len: get_u32(bytes, at),
            opcode: get_u32(bytes, at + 4),
            unique: get_u64(bytes, at + 8),
            nodeid: get_u64(bytes, at + 16),
            uid: get_u32(bytes, at + 24),
            gid: get_u32(bytes, at + 28),
            pid: get_u32(bytes, at + 32),
            padding: get_u32(bytes, at + 36),
        }
    }
}

/// Head of every reply frame.
#[derive(Clone, Copy, Debug, PartialEq, Eq, Structural)]
pub struct fuse_out_header {
    pub len: u32,
    pub error: i32,
    pub unique: u64,
}

impl Wire for fuse_out_header {
    open spec fn wire_len() -> nat {
        16
    }

    open spec fn wire(&self) -> Seq<u8> {
        u32_le(self.len)
            + i32_le(self.error)
            + u64_le(self.unique)
    }

    open spec fn wire_at(s: Seq<u8>, at: int) -> Self {
        fuse_out_header {
            len: u32_at(s, at),
            error: i32_at(s, at + 4),
            unique: u64_at(s, at + 8),
        }
    }

    proof fn lemma_wire_at(&self, pre: Seq<u8>, post: Seq<u8>) {
        broadcast use group_wire;
    }

    proof fn lemma_wire_window(s: Seq<u8>, head: Seq<u8>) {
        broadcast use group_wire;
        assert(s =~= head + s.skip(16));
    }

    fn size() -> (n: usize) {
        16
    }

    fn put(&self, out: &mut Vec<u8>) {
        put_u32(out, self.len);
        put_i32(out, self.error);
        put_u64(out, self.unique);
        proof {
            broadcast use lemma_concat_assoc;
        }
    }

    fn get(bytes: &[u8], at: usize) -> (v: Self) {
        let len: usize = bytes.len();
        assert(at + 16 <= len);
        fuse_out_header {
            len: get_u32(bytes, at),
            error: get_i32(bytes, at + 4),
            unique: get_u64(bytes, at + 8),
        }
    }
}

/// Fixed part of one packed directory entry; the name follows it.
#[derive(Clone, Copy, Debug, PartialEq, Eq, Structural)]
pub struct fuse_dirent {
    pub ino: u64,
    pub off: i64,
    pub namelen: u32,
    pub typ: u32,
}

impl Wire for fuse_dirent {
    open spec fn wire_len() -> nat {
        24
    }

    open spec fn wire(&self) -> Seq<u8> {
        u64_le(self.ino)
            + i64_le(self.off)
            + u32_le(self.namelen)
            + u32_le(self.typ)
    }

    open spec fn wire_at(s: Seq<u8>, at: int) -> Self {
        fuse_dirent {
            ino: u64_at(s, at),
            off: i64_at(s, at + 8),
            namelen: u32_at(s, at + 16),
            typ: u32_at(s, at + 20),
        }
    }

    proof fn lemma_wire_at(&self, pre: Seq<u8>, post: Seq<u8>) {
        broadcast use group_wire;
    }

    proof fn lemma_wire_window(s: Seq<u8>, head: Seq<u8>) {
        broadcast use group_wire;
        assert(s =~= head + s.skip(24));
    }

    fn size() -> (n: usize) {
        24
    }

    fn put(&self, out: &mut Vec<u8>) {
        put_u64(out, self.ino);
        put_i64(out, self.off);
        put_u32(out, self.namelen);
        put_u32(out, self.typ);
        proof {
            broadcast use lemma_concat_assoc;
        }
    }

    fn get(bytes: &[u8], at: usize) -> (v: Self) {
        let len: usize = bytes.len();
        assert(at + 24 <= len);
        fuse_dirent {
            ino: get_u64(bytes, at),
            off: get_i64(bytes, at + 8),
            namelen: get_u32(bytes, at + 16),
            typ: get_u32(bytes, at + 20),
        }
    }
}

} // verus!
