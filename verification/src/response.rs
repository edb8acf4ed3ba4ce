//! Replies: the structures that answer a request, the packing of
//! directory listings, and a reply as a whole.

use time::Timespec;
use vstd::prelude::*;
use crate::abi::{
    fuse_attr_out, fuse_bmap_out, fuse_dirent, fuse_entry_out, fuse_file_lock, fuse_kstatfs,
    fuse_lk_out, fuse_open_out, fuse_out_header, fuse_statfs_out, fuse_write_out, Wire,
};
use crate::file::{
    fuse_attr_from_attr, mode_from_kind_and_perm, spec_fuse_attr_from_attr, system_time_decompose,
    FileAttr, FileType,
};
use crate::wire::{lemma_concat_assoc, put_bytes, put_zeros, zeros};

verus! {

/// The reply to a request that names a node: the node, for how long the
/// kernel may keep the name and the attributes, and the attributes.
pub open spec fn spec_entry(ttl: Timespec, attr: FileAttr, generation: u64) -> fuse_entry_out {
    fuse_entry_out {
        nodeid: attr.ino,
        generation,
        entry_valid: ttl.sec,
        attr_valid: ttl.sec,
        entry_valid_nsec: ttl.nsec,
        attr_valid_nsec: ttl.nsec,
        attr: spec_fuse_attr_from_attr(attr),
    }
}

/// The reply that carries attributes, and for how long the kernel may
/// keep them.
pub open spec fn spec_attr(ttl: Timespec, attr: FileAttr) -> fuse_attr_out {
    fuse_attr_out {
        attr_valid: ttl.sec,
        attr_valid_nsec: ttl.nsec,
        dummy: 0,
        attr: spec_fuse_attr_from_attr(attr),
    }
}

/// Makes the reply to a request that names a node.
pub fn entry(ttl: &Timespec, attr: &FileAttr, generation: u64) -> (out: fuse_entry_out)
    ensures
        out == spec_entry(*ttl, *attr, generation),
{
    let (valid_s, valid_n) = system_time_decompose(ttl);
    fuse_entry_out {
        nodeid: attr.ino,
        generation,
        entry_valid: valid_s,
        attr_valid: valid_s,
        entry_valid_nsec: valid_n,
        attr_valid_nsec: valid_n,
        attr: fuse_attr_from_attr(attr),
    }
}

/// Makes the reply that carries attributes.
pub fn attr(ttl: &Timespec, attributes: &FileAttr) -> (out: fuse_attr_out)
    ensures
        out == spec_attr(*ttl, *attributes),
{
    let (valid_s, valid_n) = system_time_decompose(ttl);
    fuse_attr_out {
        attr_valid: valid_s,
        attr_valid_nsec: valid_n,
        dummy: 0,
        attr: fuse_attr_from_attr(attributes),
    }
}

/// The reply to open and opendir.
pub fn open(fh: u64, flags: u32) -> (out: fuse_open_out)
    ensures
        out == (fuse_open_out { fh, open_flags: flags, padding: 0 }),
{
    fuse_open_out { fh, open_flags: flags, padding: 0 }
}

/// The reply to write: the number of bytes written.
pub fn write(size: u32) -> (out: fuse_write_out)
    ensures
        out == (fuse_write_out { size, padding: 0 }),
{
    fuse_write_out { size, padding: 0 }
}

/// The reply to statfs.
pub fn statfs(
    blocks: u64,
    bfree: u64,
    bavail: u64,
    files: u64,
    ffree: u64,
    bsize: u32,
    namelen: u32,
    frsize: u32,
) -> (out: fuse_statfs_out)
    ensures
        out == (fuse_statfs_out {
            st: fuse_kstatfs {
                blocks,
                bfree,
                bavail,
                files,
                ffree,
                bsize,
                namelen,
                frsize,
                padding: 0,
                spare0: 0,
                spare1: 0,
                spare2: 0,
                spare3: 0,
                spare4: 0,
                spare5: 0,
            },
        }),
{
    fuse_statfs_out {
        st: fuse_kstatfs {
            blocks,
            bfree,
            bavail,
            files,
            ffree,
            bsize,
            namelen,
            frsize,
            padding: 0,
            spare0: 0,
            spare1: 0,
            spare2: 0,
            spare3: 0,
            spare4: 0,
            spare5: 0,
        },
    }
}

/// The reply to create: the entry of the new file and its open handle.
pub fn create(ttl: &Timespec, attr: &FileAttr, generation: u64, fh: u64, flags: u32) -> (out: (
    fuse_entry_out,
    fuse_open_out,
))
    ensures
        out.0 == spec_entry(*ttl, *attr, generation),
        out.1 == (fuse_open_out { fh, open_flags: flags, padding: 0 }),
{
    (entry(ttl, attr, generation), open(fh, flags))
}

/// The reply to getlk.
pub fn lock(start: u64, end: u64, typ: u32, pid: u32) -> (out: fuse_lk_out)
    ensures
        out == (fuse_lk_out { lk: fuse_file_lock { start, end, typ, pid } }),
{
    fuse_lk_out { lk: fuse_file_lock { start, end, typ, pid } }
}

/// The reply to bmap.
pub fn bmap(block: u64) -> (out: fuse_bmap_out)
    ensures
        out == (fuse_bmap_out { block }),
{
    fuse_bmap_out { block }
}

/// The number of zero bytes after a name of `namelen` bytes, which bring
/// the entry to a multiple of eight bytes.
pub open spec fn dirent_padding(namelen: nat) -> nat {
    ((8 - namelen % 8) % 8) as nat
}

/// The length of a packed entry with a name of `namelen` bytes: header
/// and name, rounded up to a multiple of eight.
pub open spec fn dirent_len(namelen: nat) -> nat {
    (((24 + namelen + 7) / 8) * 8) as nat
}

/// A listing of `used` bytes stays within `limit` bytes when an entry with
/// a name of `namelen` bytes is added, and the length of the name can be
/// said in the entry.
pub open spec fn dirent_fits(used: nat, namelen: nat, limit: nat) -> bool {
    namelen <= u32::MAX && used + dirent_len(namelen) <= limit
}

/// One packed directory entry: the fixed part, the name, the padding.
pub open spec fn dirent_wire(ino: u64, offset: i64, kind: FileType, name: Seq<u8>) -> Seq<u8> {
    (fuse_dirent { ino, off: offset, namelen: name.len() as u32, typ: kind.dirent_type() }).wire()
        + name + zeros(dirent_padding(name.len()))
}

/// The layout of a packed entry: its length is header and name rounded up
/// to a multiple of eight, which is `(24 + namelen + 7) & !7`; the fixed
/// part stands first, the name follows it, and the rest is zero.
pub proof fn lemma_dirent_layout(ino: u64, offset: i64, kind: FileType, name: Seq<u8>)
    requires
        name.len() <= u32::MAX,
    ensures
        dirent_wire(ino, offset, kind, name).len() == dirent_len(name.len()),
        dirent_len(name.len()) == ((24 + name.len() + 7) as u64) & !7u64,
        fuse_dirent::wire_at(dirent_wire(ino, offset, kind, name), 0) == (fuse_dirent {
            ino,
            off: offset,
            namelen: name.len() as u32,
            typ: kind.dirent_type(),
        }),
        dirent_wire(ino, offset, kind, name).subrange(24, 24 + name.len() as int) == name,
        forall|i: int|
            24 + name.len() <= i < dirent_len(name.len()) ==> dirent_wire(
                ino,
                offset,
                kind,
                name,
            )[i] == 0,
{
    let head = fuse_dirent {
        ino,
        off: offset,
        namelen: name.len() as u32,
        typ: kind.dirent_type(),
    };
    let pad = zeros(dirent_padding(name.len()));
    let w = dirent_wire(ino, offset, kind, name);
    head.lemma_wire_at(Seq::empty(), name + pad);
    assert(Seq::<u8>::empty() + head.wire() + (name + pad) =~= w);
    assert(w.subrange(24, 24 + name.len() as int) =~= name);
    let n = (24 + name.len() + 7) as u64;
    assert(((n / 8) * 8) as u64 == n & !7u64) by (bit_vector)
        requires
            n <= 0x1_0000_0020u64,
    ;
}

/// A directory listing in its packed form.
#[derive(Clone, Debug, PartialEq)]
pub struct DirReply(Vec<u8>);

impl View for DirReply {
    type V = Seq<u8>;

    closed spec fn view(&self) -> Seq<u8> {
        self.0@
    }
}

impl DirReply {
    /// An empty listing.
    pub fn new() -> (reply: DirReply)
        ensures
            reply@ == Seq::<u8>::empty(),
    {
        DirReply(Vec::new())
    }

    /// Appends one entry to the listing.
    ///
    /// The length of the name must fit the 32-bit length field of an
    /// entry.
    pub fn entry(&mut self, ino: u64, offset: i64, kind: FileType, name: &[u8])
        requires
            name@.len() <= u32::MAX,
        ensures
            final(self)@ == old(self)@ + dirent_wire(ino, offset, kind, name@),
    {
        let namelen: usize = name.len();
        let pad_size: usize = (8 - namelen % 8) % 8;
        let head = fuse_dirent {
            ino,
            off: offset,
            namelen: namelen as u32,
            typ: mode_from_kind_and_perm(&kind, 0) >> 12,
        };
        proof {
            kind.lemma_dirent_type();
        }
        head.put(&mut self.0);
        put_bytes(&mut self.0, name);
        put_zeros(&mut self.0, pad_size);
        proof {
            broadcast use lemma_concat_assoc;
        }
    }

    /// Appends one entry to the listing if the listing stays within
    /// `limit` bytes with it, and says whether the listing is full.
    ///
    /// An entry that does not fit is not added and `true` is returned:
    /// the caller stops there. A name too long for the length field of an
    /// entry fits no listing.
    pub fn add(
        &mut self,
        limit: usize,
        ino: u64,
        offset: i64,
        kind: FileType,
        name: &[u8],
    ) -> (full: bool)
        ensures
            full == !dirent_fits(old(self)@.len(), name@.len(), limit as nat),
            final(self)@ == if full {
                old(self)@
            } else {
                old(self)@ + dirent_wire(ino, offset, kind, name@)
            },
    {
        let used: usize = self.0.len();
        let namelen: usize = name.len();
        if namelen as u64 > 0xffff_ffff || used > limit {
            return true;
        }
        let entry_len: u64 = 24 + namelen as u64 + ((8 - namelen % 8) % 8) as u64;
        if entry_len > (limit - used) as u64 {
            return true;
        }
        self.entry(ino, offset, kind, name);
        false
    }

    /// The packed bytes of the listing, borrowed.
    pub fn as_slice(&self) -> (bytes: &[u8])
        ensures
            bytes@ == self@,
    {
        self.0.as_slice()
    }

    /// The packed bytes of the listing.
    pub fn to_vec(self) -> (bytes: Vec<u8>)
        ensures
            bytes@ == self@,
    {
        self.0
    }
}

/// What follows the header of a reply, by operation.
#[derive(Clone, Debug, PartialEq)]
pub enum FuseResponseBody {
    Init(),
    Destroy(),
    Forget(),
    SetAttr(),
    Unlink(),
    RmDir(),
    Rename(),
    Flush(),
    Release(),
    FSync(),
    ReleaseDir(),
    FSyncDir(),
    Access(),
    SetLock(),
    SetXAttr(),
    RemoveXAttr(),
    Lookup(fuse_entry_out),
    MkNod(fuse_entry_out),
    MkDir(fuse_entry_out),
    Symlink(fuse_entry_out),
    Link(fuse_entry_out),
    Open(fuse_open_out),
    OpenDir(fuse_open_out),
    GetAttr(fuse_attr_out),
    SetAttrOut(fuse_attr_out),
    ReadLink(Vec<u8>),
    Read(Vec<u8>),
    GetXAttr(Vec<u8>),
    ListXAttr(Vec<u8>),
    ReadDir(DirReply),
    Create(fuse_entry_out, fuse_open_out),
    StatFS(fuse_statfs_out),
    GetLock(fuse_lk_out),
    Bmap(fuse_bmap_out),
    Write(fuse_write_out),
    Interrupt(),
    GetXTimes(),
}

impl FuseResponseBody {
    /// The reply can be encoded: every reply but those to an interrupt and
    /// to a request for extended times.
    pub open spec fn implemented(&self) -> bool {
        !(self is Interrupt || self is GetXTimes)
    }

    /// The bytes that follow the header of a reply without an error.
    pub open spec fn wire(&self) -> Seq<u8> {
        match self {
            FuseResponseBody::Init()
            | FuseResponseBody::Destroy()
            | FuseResponseBody::Forget()
            | FuseResponseBody::SetAttr()
            | FuseResponseBody::Unlink()
            | FuseResponseBody::RmDir()
            | FuseResponseBody::Rename()
            | FuseResponseBody::Flush()
            | FuseResponseBody::Release()
            | FuseResponseBody::FSync()
            | FuseResponseBody::ReleaseDir()
            | FuseResponseBody::FSyncDir()
            | FuseResponseBody::Access()
            | FuseResponseBody::SetLock()
            | FuseResponseBody::SetXAttr()
            | FuseResponseBody::RemoveXAttr() => Seq::empty(),
            FuseResponseBody::Lookup(b)
            | FuseResponseBody::MkNod(b)
            | FuseResponseBody::MkDir(b)
            | FuseResponseBody::Symlink(b)
            | FuseResponseBody::Link(b) => b.wire(),
            FuseResponseBody::Open(b)
            | FuseResponseBody::OpenDir(b) => b.wire(),
            FuseResponseBody::GetAttr(b)
            | FuseResponseBody::SetAttrOut(b) => b.wire(),
            FuseResponseBody::ReadLink(d)
            | FuseResponseBody::Read(d)
            | FuseResponseBody::GetXAttr(d)
            | FuseResponseBody::ListXAttr(d) => d@,
            FuseResponseBody::ReadDir(r) => r@,
            FuseResponseBody::Create(e, o) => e.wire() + o.wire(),
            FuseResponseBody::StatFS(b) => b.wire(),
            FuseResponseBody::GetLock(b) => b.wire(),
            FuseResponseBody::Bmap(b) => b.wire(),
            FuseResponseBody::Write(b) => b.wire(),
            FuseResponseBody::Interrupt()
            | FuseResponseBody::GetXTimes() => Seq::empty(),
        }
    }
}

/// One reply: its header and what follows it.
///
/// The `len` of the header is not read: the encoder writes the length of
/// the frame it makes.
#[derive(Clone, Debug, PartialEq)]
pub struct FuseResponse {
    pub header: fuse_out_header,
    pub body: FuseResponseBody,
}

impl FuseResponse {
    /// Puts a header and a body together.
    pub fn new(header: fuse_out_header, body: FuseResponseBody) -> (resp: FuseResponse)
        ensures
            resp.header == header,
            resp.body == body,
    {
        FuseResponse { header, body }
    }

    /// The reply that answers the request `unique` with `body`.
    pub fn reply(unique: u64, body: FuseResponseBody) -> (resp: FuseResponse)
        ensures
            resp.header == (fuse_out_header { len: 0, error: 0, unique }),
            resp.body == body,
    {
        FuseResponse { header: fuse_out_header { len: 0, error: 0, unique }, body }
    }

    /// The reply that answers the request `unique` with the error number
    /// `errno`. An error reply has no body on the wire; the one it holds
    /// is never written.
    pub fn error(unique: u64, errno: i32) -> (resp: FuseResponse)
        ensures
            resp.header == (fuse_out_header { len: 0, error: errno, unique }),
            resp.body == FuseResponseBody::Init(),
    {
        FuseResponse {
            header: fuse_out_header { len: 0, error: errno, unique },
            body: FuseResponseBody::Init(),
        }
    }

    /// The header of the reply.
    pub fn get_header(&self) -> (header: &fuse_out_header)
        ensures
            *header == self.header,
    {
        &self.header
    }

    /// What follows the header.
    pub fn get_body(&self) -> (body: &FuseResponseBody)
        ensures
            *body == self.body,
    {
        &self.body
    }
}

} // verus!
