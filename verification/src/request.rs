//! Requests as the kernel sends them, after decoding.

use vstd::prelude::*;
use crate::abi::{
    fuse_access_in, fuse_bmap_in, fuse_flush_in, fuse_forget_in, fuse_fsync_in, fuse_getxattr_in,
    fuse_in_header, fuse_init_in, fuse_link_in, fuse_lk_in, fuse_mknod_in, fuse_open_in,
    fuse_read_in, fuse_release_in, fuse_rename_in, fuse_setattr_in, fuse_setxattr_in, fuse_write_in,
    Wire,
};
use crate::opcode::fuse_opcode;
use crate::wire::{lemma_concat_assoc, put_bytes};

verus! {

/// What follows the header of a request, by operation.
///
/// `B` is the type of a byte string: `Vec<u8>` in a decoded request, and
/// `Seq<u8>` in its mathematical view. A name or a path is held without
/// its terminating zero byte.
#[derive(Clone, Debug, PartialEq, Eq)]
pub enum RequestBody<B> {
    Init(fuse_init_in),
    Destroy(),
    Lookup(B),
    Forget(fuse_forget_in),
    GetAttr(),
    SetAttr(fuse_setattr_in),
    ReadLink(),
    MkNod(fuse_mknod_in),
    MkDir(B),
    Unlink(B),
    RmDir(B),
    Symlink(B, B),
    Rename(fuse_rename_in, B, B),
    Link(fuse_link_in, B),
    Open(fuse_open_in),
    Read(fuse_read_in),
    Write(fuse_write_in, B),
    Flush(fuse_flush_in),
    Release(fuse_release_in),
    FSync(fuse_fsync_in),
    OpenDir(fuse_open_in),
    ReadDir(fuse_read_in),
    ReleaseDir(fuse_release_in),
    FSyncDir(fuse_fsync_in),
    StatFS(),
    SetXAttr(fuse_setxattr_in, B),
    GetXAttr(fuse_getxattr_in),
    ListXAttr(fuse_getxattr_in),
    RemoveXAttr(B),
    Access(fuse_access_in),
    Create(fuse_open_in),
    GetLock(fuse_lk_in),
    SetLock(fuse_lk_in),
    Bmap(fuse_bmap_in),
}

/// The body of a decoded request.
pub type FuseRequestBody = RequestBody<Vec<u8>>;

/// The mathematical view of a request body.
pub type RequestBodyView = RequestBody<Seq<u8>>;

impl View for RequestBody<Vec<u8>> {
    type V = RequestBody<Seq<u8>>;

    open spec fn view(&self) -> RequestBody<Seq<u8>> {
        match self {
            RequestBody::Init(b) => RequestBody::Init(*b),
            RequestBody::Destroy() => RequestBody::Destroy(),
            RequestBody::Lookup(n) => RequestBody::Lookup(n@),
            RequestBody::Forget(b) => RequestBody::Forget(*b),
            RequestBody::GetAttr() => RequestBody::GetAttr(),
            RequestBody::SetAttr(b) => RequestBody::SetAttr(*b),
            RequestBody::ReadLink() => RequestBody::ReadLink(),
            RequestBody::MkNod(b) => RequestBody::MkNod(*b),
            RequestBody::MkDir(n) => RequestBody::MkDir(n@),
            RequestBody::Unlink(n) => RequestBody::Unlink(n@),
            RequestBody::RmDir(n) => RequestBody::RmDir(n@),
            RequestBody::Symlink(n, p) => RequestBody::Symlink(n@, p@),
            RequestBody::Rename(b, n, m) => RequestBody::Rename(*b, n@, m@),
            RequestBody::Link(b, n) => RequestBody::Link(*b, n@),
            RequestBody::Open(b) => RequestBody::Open(*b),
            RequestBody::Read(b) => RequestBody::Read(*b),
            RequestBody::Write(b, d) => RequestBody::Write(*b, d@),
            RequestBody::Flush(b) => RequestBody::Flush(*b),
            RequestBody::Release(b) => RequestBody::Release(*b),
            RequestBody::FSync(b) => RequestBody::FSync(*b),
            RequestBody::OpenDir(b) => RequestBody::OpenDir(*b),
            RequestBody::ReadDir(b) => RequestBody::ReadDir(*b),
            RequestBody::ReleaseDir(b) => RequestBody::ReleaseDir(*b),
            RequestBody::FSyncDir(b) => RequestBody::FSyncDir(*b),
            RequestBody::StatFS() => RequestBody::StatFS(),
            RequestBody::SetXAttr(b, d) => RequestBody::SetXAttr(*b, d@),
            RequestBody::GetXAttr(b) => RequestBody::GetXAttr(*b),
            RequestBody::ListXAttr(b) => RequestBody::ListXAttr(*b),
            RequestBody::RemoveXAttr(n) => RequestBody::RemoveXAttr(n@),
            RequestBody::Access(b) => RequestBody::Access(*b),
            RequestBody::Create(b) => RequestBody::Create(*b),
            RequestBody::GetLock(b) => RequestBody::GetLock(*b),
            RequestBody::SetLock(b) => RequestBody::SetLock(*b),
            RequestBody::Bmap(b) => RequestBody::Bmap(*b),
        }
    }
}

/// One request: its header and what follows it.
#[derive(Clone, Debug, PartialEq, Eq)]
pub struct FuseRequest {
    pub header: fuse_in_header,
    pub body: FuseRequestBody,
}

/// The mathematical view of a request.
pub struct RequestView {
    pub header: fuse_in_header,
    pub body: RequestBodyView,
}

impl View for FuseRequest {
    type V = RequestView;

    open spec fn view(&self) -> RequestView {
        RequestView { header: self.header, body: self.body@ }
    }
}

impl FuseRequest {
    /// Puts a header and a body together.
    pub fn new(header: fuse_in_header, body: FuseRequestBody) -> (req: FuseRequest)
        ensures
            req.header == header,
            req.body == body,
    {
        FuseRequest { header, body }
    }

    /// The header of the request.
    pub fn get_header(&self) -> (header: &fuse_in_header)
        ensures
            *header == self.header,
    {
        &self.header
    }

    /// What follows the header.
    pub fn get_body(&self) -> (body: &FuseRequestBody)
        ensures
            *body == self.body,
    {
        &self.body
    }

    /// Appends the frame of the request to `out`: the header as it is,
    /// then the body, each name with its terminating zero.
    pub fn put(&self, out: &mut Vec<u8>)
        ensures
            final(out)@ == old(out)@ + self@.wire(),
    {
        self.header.put(out);
        match &self.body {
            RequestBody::Init(b) => {
                b.put(out);
            },
            RequestBody::Destroy() => {},
            RequestBody::Lookup(n) => {
                put_name(out, n);
            },
            RequestBody::Forget(b) => {
                b.put(out);
            },
            RequestBody::GetAttr() => {},
            RequestBody::SetAttr(b) => {
                b.put(out);
            },
            RequestBody::ReadLink() => {},
            RequestBody::MkNod(b) => {
                b.put(out);
            },
            RequestBody::MkDir(n) => {
                put_name(out, n);
            },
            RequestBody::Unlink(n) => {
                put_name(out, n);
            },
            RequestBody::RmDir(n) => {
                put_name(out, n);
            },
            RequestBody::Symlink(n, p) => {
                put_name(out, n);
                put_name(out, p);
            },
            RequestBody::Rename(b, n, m) => {
                b.put(out);
                put_name(out, n);
                put_name(out, m);
            },
            RequestBody::Link(b, n) => {
                b.put(out);
                put_name(out, n);
            },
            RequestBody::Open(b) => {
                b.put(out);
            },
            RequestBody::Read(b) => {
                b.put(out);
            },
            RequestBody::Write(b, d) => {
                b.put(out);
                put_bytes(out, d.as_slice());
            },
            RequestBody::Flush(b) => {
                b.put(out);
            },
            RequestBody::Release(b) => {
                b.put(out);
            },
            RequestBody::FSync(b) => {
                b.put(out);
            },
            RequestBody::OpenDir(b) => {
                b.put(out);
            },
            RequestBody::ReadDir(b) => {
                b.put(out);
            },
            RequestBody::ReleaseDir(b) => {
                b.put(out);
            },
            RequestBody::FSyncDir(b) => {
                b.put(out);
            },
            RequestBody::StatFS() => {},
            RequestBody::SetXAttr(b, d) => {
                b.put(out);
                put_bytes(out, d.as_slice());
            },
            RequestBody::GetXAttr(b) => {
                b.put(out);
            },
            RequestBody::ListXAttr(b) => {
                b.put(out);
            },
            RequestBody::RemoveXAttr(n) => {
                put_name(out, n);
            },
            RequestBody::Access(b) => {
                b.put(out);
            },
            RequestBody::Create(b) => {
                b.put(out);
            },
            RequestBody::GetLock(b) => {
                b.put(out);
            },
            RequestBody::SetLock(b) => {
                b.put(out);
            },
            RequestBody::Bmap(b) => {
                b.put(out);
            },
        }
        proof {
            broadcast use lemma_concat_assoc;
            assert(old(out)@ + self.header.wire() + Seq::<u8>::empty() =~= old(out)@
                + self.header.wire());
        }
    }
}

/// Appends the image of a name to `out`: its bytes and the terminating
/// zero.
fn put_name(out: &mut Vec<u8>, name: &Vec<u8>)
    ensures
        final(out)@ == old(out)@ + name_wire(name@),
{
    put_bytes(out, name.as_slice());
    out.push(0u8);
    assert(out@ =~= old(out)@ + name_wire(name@));
}

/// No byte of `name` is zero, so that the name can be told from its
/// terminator.
pub open spec fn nul_free(name: Seq<u8>) -> bool {
    forall|i: int| 0 <= i < name.len() ==> name[i] != 0
}

/// The image of a name or path: its bytes and the terminating zero.
pub open spec fn name_wire(name: Seq<u8>) -> Seq<u8> {
    name.push(0u8)
}

/// The operation `op` comes with a body of the form `body`.
pub open spec fn body_fits(op: fuse_opcode, body: RequestBodyView) -> bool {
    match op {
        fuse_opcode::FUSE_INIT => body is Init,
        fuse_opcode::FUSE_DESTROY => body is Destroy,
        fuse_opcode::FUSE_LOOKUP => body is Lookup,
        fuse_opcode::FUSE_FORGET => body is Forget,
        fuse_opcode::FUSE_GETATTR => body is GetAttr,
        fuse_opcode::FUSE_SETATTR => body is SetAttr,
        fuse_opcode::FUSE_READLINK => body is ReadLink,
        fuse_opcode::FUSE_MKNOD => body is MkNod,
        fuse_opcode::FUSE_MKDIR => body is MkDir,
        fuse_opcode::FUSE_UNLINK => body is Unlink,
        fuse_opcode::FUSE_RMDIR => body is RmDir,
        fuse_opcode::FUSE_SYMLINK => body is Symlink,
        fuse_opcode::FUSE_RENAME => body is Rename,
        fuse_opcode::FUSE_LINK => body is Link,
        fuse_opcode::FUSE_OPEN => body is Open,
        fuse_opcode::FUSE_READ => body is Read,
        fuse_opcode::FUSE_WRITE => body is Write,
        fuse_opcode::FUSE_FLUSH => body is Flush,
        fuse_opcode::FUSE_RELEASE => body is Release,
        fuse_opcode::FUSE_FSYNC => body is FSync,
        fuse_opcode::FUSE_OPENDIR => body is OpenDir,
        fuse_opcode::FUSE_READDIR => body is ReadDir,
        fuse_opcode::FUSE_RELEASEDIR => body is ReleaseDir,
        fuse_opcode::FUSE_FSYNCDIR => body is FSyncDir,
        fuse_opcode::FUSE_STATFS => body is StatFS,
        fuse_opcode::FUSE_SETXATTR => body is SetXAttr,
        fuse_opcode::FUSE_GETXATTR => body is GetXAttr,
        fuse_opcode::FUSE_LISTXATTR => body is ListXAttr,
        fuse_opcode::FUSE_REMOVEXATTR => body is RemoveXAttr,
        fuse_opcode::FUSE_ACCESS => body is Access,
        fuse_opcode::FUSE_CREATE => body is Create,
        fuse_opcode::FUSE_GETLK => body is GetLock,
        fuse_opcode::FUSE_SETLK => body is SetLock,
        fuse_opcode::FUSE_SETLKW => body is SetLock,
        fuse_opcode::FUSE_BMAP => body is Bmap,
        fuse_opcode::FUSE_INTERRUPT => false,
    }
}

/// The operation with number `n` is one that requests are decoded for:
/// every known operation but the interrupt.
pub open spec fn supported_opcode(n: u32) -> bool {
    fuse_opcode::spec_from_u32(n) matches Some(op) && op != fuse_opcode::FUSE_INTERRUPT
}

impl RequestView {
    /// The request can stand on the wire: the header names a supported
    /// operation, the body has the form of that operation, and no name
    /// holds a zero byte.
    pub open spec fn wf(self) -> bool {
        &&& fuse_opcode::spec_from_u32(self.header.opcode) matches Some(op) && body_fits(
            op,
            self.body,
        )
        &&& match self.body {
            RequestBody::Lookup(n) => nul_free(n),
            RequestBody::MkDir(n) => nul_free(n),
            RequestBody::Unlink(n) => nul_free(n),
            RequestBody::RmDir(n) => nul_free(n),
            RequestBody::Symlink(n, p) => nul_free(n) && nul_free(p),
            RequestBody::Rename(_, n, m) => nul_free(n) && nul_free(m),
            RequestBody::Link(_, n) => nul_free(n),
            RequestBody::RemoveXAttr(n) => nul_free(n),
            _ => true,
        }
    }

    /// The bytes of the body as the kernel lays them out.
    pub open spec fn body_wire(self) -> Seq<u8> {
        match self.body {
            RequestBody::Init(b) => b.wire(),
            RequestBody::Destroy() => Seq::empty(),
            RequestBody::Lookup(n) => name_wire(n),
            RequestBody::Forget(b) => b.wire(),
            RequestBody::GetAttr() => Seq::empty(),
            RequestBody::SetAttr(b) => b.wire(),
            RequestBody::ReadLink() => Seq::empty(),
            RequestBody::MkNod(b) => b.wire(),
            RequestBody::MkDir(n) => name_wire(n),
            RequestBody::Unlink(n) => name_wire(n),
            RequestBody::RmDir(n) => name_wire(n),
            RequestBody::Symlink(n, p) => name_wire(n) + name_wire(p),
            RequestBody::Rename(b, n, m) => b.wire() + name_wire(n) + name_wire(m),
            RequestBody::Link(b, n) => b.wire() + name_wire(n),
            RequestBody::Open(b) => b.wire(),
            RequestBody::Read(b) => b.wire(),
            RequestBody::Write(b, d) => b.wire() + d,
            RequestBody::Flush(b) => b.wire(),
            RequestBody::Release(b) => b.wire(),
            RequestBody::FSync(b) => b.wire(),
            RequestBody::OpenDir(b) => b.wire(),
            RequestBody::ReadDir(b) => b.wire(),
            RequestBody::ReleaseDir(b) => b.wire(),
            RequestBody::FSyncDir(b) => b.wire(),
            RequestBody::StatFS() => Seq::empty(),
            RequestBody::SetXAttr(b, d) => b.wire() + d,
            RequestBody::GetXAttr(b) => b.wire(),
            RequestBody::ListXAttr(b) => b.wire(),
            RequestBody::RemoveXAttr(n) => name_wire(n),
            RequestBody::Access(b) => b.wire(),
            RequestBody::Create(b) => b.wire(),
            RequestBody::GetLock(b) => b.wire(),
            RequestBody::SetLock(b) => b.wire(),
            RequestBody::Bmap(b) => b.wire(),
        }
    }

    /// The whole frame: the header, then the body.
    pub open spec fn wire(self) -> Seq<u8> {
        self.header.wire() + self.body_wire()
    }
}

} // verus!
