//! File kinds and attributes, and their form in a reply.

use time::Timespec;
use vstd::prelude::*;
use crate::abi::fuse_attr;
use crate::errno::{S_IFBLK, S_IFCHR, S_IFDIR, S_IFIFO, S_IFLNK, S_IFREG, S_IFSOCK};

verus! {

/// `time::Timespec`, taken with the two public fields that the `time`
/// crate declares for it: `sec`, the seconds, and `nsec`, the nanoseconds.
#[verifier::external_type_specification]
pub struct ExTimespec(time::Timespec);

/// `Timespec::clone`, which the `time` crate derives for its plain pair of
/// seconds and nanoseconds: the copy has the same two fields.
pub assume_specification[ <time::Timespec as Clone>::clone ](t: &Timespec) -> (r: Timespec)
    ensures
        r == *t,
;

/// The kind of a node.
#[derive(Clone, Copy, Debug, PartialEq, Eq, Structural)]
pub enum FileType {
    /// Named pipe (S_IFIFO)
    NamedPipe,
    /// Character device (S_IFCHR)
    CharDevice,
    /// Block device (S_IFBLK)
    BlockDevice,
    /// Directory (S_IFDIR)
    Directory,
    /// Regular file (S_IFREG)
    RegularFile,
    /// Symbolic link (S_IFLNK)
    Symlink,
    /// Unix domain socket (S_IFSOCK)
    Socket,
}

impl FileType {
    /// The mode bits that tell the kind.
    pub open spec fn mode_bits(self) -> u32 {
        match self {
            FileType::NamedPipe => S_IFIFO,
            FileType::CharDevice => S_IFCHR,
            FileType::BlockDevice => S_IFBLK,
            FileType::Directory => S_IFDIR,
            FileType::RegularFile => S_IFREG,
            FileType::Symlink => S_IFLNK,
            FileType::Socket => S_IFSOCK,
        }
    }

    /// The number of the kind in a packed directory entry: the top four
    /// bits of the mode.
    pub open spec fn dirent_type(self) -> u32 {
        match self {
            FileType::NamedPipe => 1,
            FileType::CharDevice => 2,
            FileType::BlockDevice => 6,
            FileType::Directory => 4,
            FileType::RegularFile => 8,
            FileType::Symlink => 10,
            FileType::Socket => 12,
        }
    }

    /// The number of the kind is its mode bits shifted down by twelve.
    pub proof fn lemma_dirent_type(self)
        ensures
            self.dirent_type() == (self.mode_bits() | 0u32) >> 12u32,
            self.dirent_type() == self.mode_bits() / 4096,
    {
        assert((0o010000u32 | 0u32) >> 12u32 == 1) by (bit_vector);
        assert((0o020000u32 | 0u32) >> 12u32 == 2) by (bit_vector);
        assert((0o060000u32 | 0u32) >> 12u32 == 6) by (bit_vector);
        assert((0o040000u32 | 0u32) >> 12u32 == 4) by (bit_vector);
        assert((0o100000u32 | 0u32) >> 12u32 == 8) by (bit_vector);
        assert((0o120000u32 | 0u32) >> 12u32 == 10) by (bit_vector);
        assert((0o140000u32 | 0u32) >> 12u32 == 12) by (bit_vector);
    }
}

/// The mode of a node: the bits of its kind together with its permission
/// bits.
pub open spec fn spec_mode_from_kind_and_perm(kind: FileType, perm: u16) -> u32 {
    kind.mode_bits() | (perm as u32)
}

/// Returns the mode for a given file kind and permission.
pub fn mode_from_kind_and_perm(kind: &FileType, perm: u16) -> (mode: u32)
    ensures
        mode == spec_mode_from_kind_and_perm(*kind, perm),
{
    (match *kind {
        FileType::NamedPipe => S_IFIFO,
        FileType::CharDevice => S_IFCHR,
        FileType::BlockDevice => S_IFBLK,
        FileType::Directory => S_IFDIR,
        FileType::RegularFile => S_IFREG,
        FileType::Symlink => S_IFLNK,
        FileType::Socket => S_IFSOCK,
    }) | (perm as u32)
}

/// File attributes.
#[derive(Clone, Copy, Debug, PartialEq)]
pub struct FileAttr {
    /// Inode number
    pub ino: u64,
    /// Size in bytes
    pub size: u64,
    /// Size in blocks
    pub blocks: u64,
    /// Time of last access
    pub atime: Timespec,
    /// Time of last modification
    pub mtime: Timespec,
    /// Time of last change
    pub ctime: Timespec,
    /// Time of creation
    pub crtime: Timespec,
    /// Kind of file (directory, file, pipe, etc)
    pub kind: FileType,
    /// Permissions
    pub perm: u16,
    /// Number of hard links
    pub nlink: u32,
    /// User id
    pub uid: u32,
    /// Group id
    pub gid: u32,
    /// Rdev
    pub rdev: u32,
    /// Flags
    pub flags: u32,
}

/// The seconds and nanoseconds of a point in time.
pub open spec fn spec_system_time_decompose(st: Timespec) -> (i64, i32) {
    (st.sec, st.nsec)
}

/// Takes a point in time and returns its seconds and nanoseconds since the
/// epoch.
pub fn system_time_decompose(st: &Timespec) -> (parts: (i64, i32))
    ensures
        parts == spec_system_time_decompose(*st),
{
    (st.sec, st.nsec)
}

/// The attributes as a reply carries them. Creation time and flags have
/// no place in a reply.
pub open spec fn spec_fuse_attr_from_attr(attr: FileAttr) -> fuse_attr {
    fuse_attr {
        ino: attr.ino,
        size: attr.size,
        blocks: attr.blocks,
        atime: attr.atime.sec,
        mtime: attr.mtime.sec,
        ctime: attr.ctime.sec,
        atimensec: attr.atime.nsec,
        mtimensec: attr.mtime.nsec,
        ctimensec: attr.ctime.nsec,
        mode: spec_mode_from_kind_and_perm(attr.kind, attr.perm),
        nlink: attr.nlink,
        uid: attr.uid,
        gid: attr.gid,
        rdev: attr.rdev,
    }
}

/// Returns a `fuse_attr` from a `FileAttr`.
pub fn fuse_attr_from_attr(attr: &FileAttr) -> (out: fuse_attr)
    ensures
        out == spec_fuse_attr_from_attr(*attr),
{
    let (atime_s, atime_n) = system_time_decompose(&attr.atime);
    let (mtime_s, mtime_n) = system_time_decompose(&attr.mtime);
    let (ctime_s, ctime_n) = system_time_decompose(&attr.ctime);
    fuse_attr {
        ino: attr.ino,
        size: attr.size,
        blocks: attr.blocks,
        atime: atime_s,
        mtime: mtime_s,
        ctime: ctime_s,
        atimensec: atime_n,
        mtimensec: mtime_n,
        ctimensec: ctime_n,
        mode: mode_from_kind_and_perm(&attr.kind, attr.perm),
        nlink: attr.nlink,
        uid: attr.uid,
        gid: attr.gid,
        rdev: attr.rdev,
    }
}

} // verus!
