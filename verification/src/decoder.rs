//! Decoding of request frames.
//!
//! A frame is a header of forty bytes and a body whose form the operation
//! in the header decides. [`parse_request`] says which request a sequence
//! of bytes holds, and [`FuseRequestDecoder::decode`] computes it.

use bytes::BytesMut;
use vstd::prelude::*;
use crate::abi::{
    fuse_access_in, fuse_bmap_in, fuse_flush_in, fuse_forget_in, fuse_fsync_in, fuse_getxattr_in,
    fuse_in_header, fuse_init_in, fuse_link_in, fuse_lk_in, fuse_mknod_in, fuse_open_in,
    fuse_read_in, fuse_release_in, fuse_rename_in, fuse_setattr_in, fuse_setxattr_in, fuse_write_in,
    Wire,
};
use crate::buffer::{buffer_advance, buffer_bytes, buffer_len, buffer_split_to, buffer_to_vec};
use crate::opcode::fuse_opcode;
use crate::request::{
    body_fits, name_wire, nul_free, supported_opcode, FuseRequest, RequestBody, RequestBodyView,
    RequestView,
};

verus! {

/// Why a frame was not decoded.
#[derive(Clone, Copy, Debug, PartialEq, Eq, Structural)]
pub enum DecodeError {
    /// The buffer holds fewer bytes than a header has.
    HeaderTooShort,
    /// The header names an operation that is not known; its number is kept.
    UnknownOpcode(u32),
    /// The request is an interrupt, which is not served.
    Interrupt,
    /// The buffer ends before the fixed part of the body does.
    BodyTooShort,
    /// A name or path has no terminating zero byte.
    MissingTerminator,
}

/// The two classes of failure that callers of the decoder tell apart.
#[derive(Clone, Copy, Debug, PartialEq, Eq, Structural)]
pub enum DecodeErrorKind {
    /// The frame is malformed or names an unknown operation.
    InvalidInput,
    /// The frame is well formed but asks for what is not served.
    Other,
}

impl DecodeError {
    /// The class of the failure.
    pub open spec fn spec_kind(self) -> DecodeErrorKind {
        match self {
            DecodeError::Interrupt => DecodeErrorKind::Other,
            _ => DecodeErrorKind::InvalidInput,
        }
    }

    /// The class of the failure.
    #[verifier::when_used_as_spec(spec_kind)]
    pub fn kind(self) -> (k: DecodeErrorKind)
        ensures
            k == self.spec_kind(),
    {
        match self {
            DecodeError::Interrupt => DecodeErrorKind::Other,
            _ => DecodeErrorKind::InvalidInput,
        }
    }

    /// A short text for the failure.
    pub open spec fn spec_message(self) -> Seq<char> {
        match self {
            DecodeError::HeaderTooShort => "The header was too short"@,
            DecodeError::UnknownOpcode(_) => "Unknown FUSE opcode"@,
            DecodeError::Interrupt => "Interrupting is not implemented"@,
            DecodeError::BodyTooShort => "The body was too short"@,
            DecodeError::MissingTerminator => "A name was not terminated"@,
        }
    }

    /// A short text for the failure.
    pub fn message(self) -> (text: &'static str)
        ensures
            text@ == self.spec_message(),
    {
        match self {
            DecodeError::HeaderTooShort => "The header was too short",
            DecodeError::UnknownOpcode(_) => "Unknown FUSE opcode",
            DecodeError::Interrupt => "Interrupting is not implemented",
            DecodeError::BodyTooShort => "The body was too short",
            DecodeError::MissingTerminator => "A name was not terminated",
        }
    }
}

/// The number of bytes of `s` before its first zero byte, or the length of
/// `s` if it holds none.
pub open spec fn name_len(s: Seq<u8>) -> nat
    decreases s.len(),
{
    if s.len() == 0 || s[0] == 0 {
        0
    } else {
        1 + name_len(s.skip(1))
    }
}

/// A run of nonzero bytes is passed over by `name_len`: if the first `n`
/// bytes of `s` are not zero, `name_len` is `n` where byte `n` is zero (or
/// the sequence ends), and greater than `n` otherwise.
pub proof fn lemma_name_len_from_prefix(s: Seq<u8>, n: int)
    requires
        0 <= n <= s.len(),
        forall|i: int| 0 <= i < n ==> s[i] != 0,
    ensures
        name_len(s) >= n,
        (n == s.len() || s[n] == 0) ==> name_len(s) == n,
    decreases n,
{
    if n == 0 {
    } else {
        let t = s.skip(1);
        assert forall|i: int| 0 <= i < n - 1 implies t[i] != 0 by {
            assert(t[i] == s[i + 1]);
        }
        lemma_name_len_from_prefix(t, n - 1);
        assert(s[0] != 0);
        if n < s.len() {
            assert(t[n - 1] == s[n]);
        }
    }
}

/// What reading one part of a frame gives: the part or the failure, and
/// the bytes that are left.
pub type Parsed<T> = (Result<T, DecodeError>, Seq<u8>);

/// Reads a fixed-layout structure from the front of `s`. If `s` is too
/// short, nothing is consumed.
pub open spec fn parse_fixed<T: Wire>(s: Seq<u8>) -> Parsed<T> {
    if s.len() < T::wire_len() {
        (Err(DecodeError::BodyTooShort), s)
    } else {
        (Ok(T::wire_at(s, 0)), s.skip(T::wire_len() as int))
    }
}

/// Reads a zero-terminated name from the front of `s`: the bytes before
/// the first zero byte. The terminator is consumed and not returned. If
/// `s` holds no zero byte, nothing is consumed.
pub open spec fn parse_name(s: Seq<u8>) -> Parsed<Seq<u8>> {
    if name_len(s) >= s.len() {
        (Err(DecodeError::MissingTerminator), s)
    } else {
        (Ok(s.take(name_len(s) as int)), s.skip(name_len(s) as int + 1))
    }
}

/// Reads all of `s` as one piece of data.
pub open spec fn parse_data(s: Seq<u8>) -> Parsed<Seq<u8>> {
    (Ok(s), Seq::empty())
}

/// Makes a body of a part that was read, and hands a failure on.
pub open spec fn lift<T>(p: Parsed<T>, f: spec_fn(T) -> RequestBodyView) -> Parsed<
    RequestBodyView,
> {
    match p.0 {
        Ok(v) => (Ok(f(v)), p.1),
        Err(e) => (Err(e), p.1),
    }
}

/// Reads a fixed-layout structure and then the rest of the body, which
/// `next` reads from what the structure left.
pub open spec fn parse_fixed_then<T: Wire>(
    s: Seq<u8>,
    next: spec_fn(T, Seq<u8>) -> Parsed<RequestBodyView>,
) -> Parsed<RequestBodyView> {
    match parse_fixed::<T>(s).0 {
        Ok(b) => next(b, parse_fixed::<T>(s).1),
        Err(e) => (Err(e), parse_fixed::<T>(s).1),
    }
}

/// Reads a name and then the rest of the body, which `next` reads from
/// what the name left.
pub open spec fn parse_name_then(
    s: Seq<u8>,
    next: spec_fn(Seq<u8>, Seq<u8>) -> Parsed<RequestBodyView>,
) -> Parsed<RequestBodyView> {
    match parse_name(s).0 {
        Ok(n) => next(n, parse_name(s).1),
        Err(e) => (Err(e), parse_name(s).1),
    }
}

/// The body of a request for operation `op` that the bytes `s` after the
/// header hold, and what is left of `s`.
pub open spec fn parse_body(op: fuse_opcode, s: Seq<u8>) -> Parsed<RequestBodyView> {
    match op {
        fuse_opcode::FUSE_INIT => lift(
            parse_fixed::<fuse_init_in>(s),
            |b: fuse_init_in| RequestBody::Init(b),
        ),
        fuse_opcode::FUSE_DESTROY => (Ok(RequestBody::Destroy()), s),
        fuse_opcode::FUSE_LOOKUP => lift(parse_name(s), |n: Seq<u8>| RequestBody::Lookup(n)),
        fuse_opcode::FUSE_FORGET => lift(
            parse_fixed::<fuse_forget_in>(s),
            |b: fuse_forget_in| RequestBody::Forget(b),
        ),
        fuse_opcode::FUSE_GETATTR => (Ok(RequestBody::GetAttr()), s),
        fuse_opcode::FUSE_SETATTR => lift(
            parse_fixed::<fuse_setattr_in>(s),
            |b: fuse_setattr_in| RequestBody::SetAttr(b),
        ),
        fuse_opcode::FUSE_READLINK => (Ok(RequestBody::ReadLink()), s),
        fuse_opcode::FUSE_MKNOD => lift(
            parse_fixed::<fuse_mknod_in>(s),
            |b: fuse_mknod_in| RequestBody::MkNod(b),
        ),
        fuse_opcode::FUSE_MKDIR => lift(parse_name(s), |n: Seq<u8>| RequestBody::MkDir(n)),
        fuse_opcode::FUSE_UNLINK => lift(parse_name(s), |n: Seq<u8>| RequestBody::Unlink(n)),
        fuse_opcode::FUSE_RMDIR => lift(parse_name(s), |n: Seq<u8>| RequestBody::RmDir(n)),
        fuse_opcode::FUSE_SYMLINK => parse_name_then(
            s,
            |n: Seq<u8>, r: Seq<u8>| lift(parse_name(r), |p: Seq<u8>| RequestBody::Symlink(n, p)),
        ),
        fuse_opcode::FUSE_RENAME => parse_fixed_then::<fuse_rename_in>(
            s,
            |b: fuse_rename_in, r: Seq<u8>|
                parse_name_then(
                    r,
                    |n: Seq<u8>, q: Seq<u8>|
                        lift(parse_name(q), |m: Seq<u8>| RequestBody::Rename(b, n, m)),
                ),
        ),
        fuse_opcode::FUSE_LINK => parse_fixed_then::<fuse_link_in>(
            s,
            |b: fuse_link_in, r: Seq<u8>|
                lift(parse_name(r), |n: Seq<u8>| RequestBody::Link(b, n)),
        ),
        fuse_opcode::FUSE_OPEN => lift(
            parse_fixed::<fuse_open_in>(s),
            |b: fuse_open_in| RequestBody::Open(b),
        ),
        fuse_opcode::FUSE_READ => lift(
            parse_fixed::<fuse_read_in>(s),
            |b: fuse_read_in| RequestBody::Read(b),
        ),
        fuse_opcode::FUSE_WRITE => parse_fixed_then::<fuse_write_in>(
            s,
            |b: fuse_write_in, r: Seq<u8>|
                lift(parse_data(r), |d: Seq<u8>| RequestBody::Write(b, d)),
        ),
        fuse_opcode::FUSE_FLUSH => lift(
            parse_fixed::<fuse_flush_in>(s),
            |b: fuse_flush_in| RequestBody::Flush(b),
        ),
        fuse_opcode::FUSE_RELEASE => lift(
            parse_fixed::<fuse_release_in>(s),
            |b: fuse_release_in| RequestBody::Release(b),
        ),
        fuse_opcode::FUSE_FSYNC => lift(
            parse_fixed::<fuse_fsync_in>(s),
            |b: fuse_fsync_in| RequestBody::FSync(b),
        ),
        fuse_opcode::FUSE_OPENDIR => lift(
            parse_fixed::<fuse_open_in>(s),
            |b: fuse_open_in| RequestBody::OpenDir(b),
        ),
        fuse_opcode::FUSE_READDIR => lift(
            parse_fixed::<fuse_read_in>(s),
            |b: fuse_read_in| RequestBody::ReadDir(b),
        ),
        fuse_opcode::FUSE_RELEASEDIR => lift(
            parse_fixed::<fuse_release_in>(s),
            |b: fuse_release_in| RequestBody::ReleaseDir(b),
        ),
        fuse_opcode::FUSE_FSYNCDIR => lift(
            parse_fixed::<fuse_fsync_in>(s),
            |b: fuse_fsync_in| RequestBody::FSyncDir(b),
        ),
        fuse_opcode::FUSE_STATFS => (Ok(RequestBody::StatFS()), s),
        fuse_opcode::FUSE_SETXATTR => parse_fixed_then::<fuse_setxattr_in>(
            s,
            |b: fuse_setxattr_in, r: Seq<u8>|
                lift(parse_data(r), |d: Seq<u8>| RequestBody::SetXAttr(b, d)),
        ),
        fuse_opcode::FUSE_GETXATTR => lift(
            parse_fixed::<fuse_getxattr_in>(s),
            |b: fuse_getxattr_in| RequestBody::GetXAttr(b),
        ),
        fuse_opcode::FUSE_LISTXATTR => lift(
            parse_fixed::<fuse_getxattr_in>(s),
            |b: fuse_getxattr_in| RequestBody::ListXAttr(b),
        ),
        fuse_opcode::FUSE_REMOVEXATTR => lift(
            parse_name(s),
            |n: Seq<u8>| RequestBody::RemoveXAttr(n),
        ),
        fuse_opcode::FUSE_ACCESS => lift(
            parse_fixed::<fuse_access_in>(s),
            |b: fuse_access_in| RequestBody::Access(b),
        ),
        fuse_opcode::FUSE_CREATE => lift(
            parse_fixed::<fuse_open_in>(s),
            |b: fuse_open_in| RequestBody::Create(b),
        ),
        fuse_opcode::FUSE_GETLK => lift(
            parse_fixed::<fuse_lk_in>(s),
            |b: fuse_lk_in| RequestBody::GetLock(b),
        ),
        fuse_opcode::FUSE_SETLK | fuse_opcode::FUSE_SETLKW => lift(
            parse_fixed::<fuse_lk_in>(s),
            |b: fuse_lk_in| RequestBody::SetLock(b),
        ),
        fuse_opcode::FUSE_BMAP => lift(
            parse_fixed::<fuse_bmap_in>(s),
            |b: fuse_bmap_in| RequestBody::Bmap(b),
        ),
        fuse_opcode::FUSE_INTERRUPT => (Err(DecodeError::Interrupt), s),
    }
}

/// The request that the frame `s` holds, or why it holds none, and the
/// bytes that decoding leaves in the buffer.
///
/// A buffer shorter than a header is left as it is. Otherwise the header
/// is consumed, and of the body what was read before a failure.
pub open spec fn parse_request(s: Seq<u8>) -> Parsed<RequestView> {
    if s.len() < fuse_in_header::wire_len() {
        (Err(DecodeError::HeaderTooShort), s)
    } else {
        let header = fuse_in_header::wire_at(s, 0);
        let rest = s.skip(fuse_in_header::wire_len() as int);
        match fuse_opcode::spec_from_u32(header.opcode) {
            None => (Err(DecodeError::UnknownOpcode(header.opcode)), rest),
            Some(op) => match parse_body(op, rest).0 {
                Ok(body) => (Ok(RequestView { header, body }), parse_body(op, rest).1),
                Err(e) => (Err(e), parse_body(op, rest).1),
            },
        }
    }
}

/// Takes a fixed-layout structure from the front of the buffer.
///
/// The buffer must hold the whole structure.
pub fn fetch<T: Wire>(src: &mut BytesMut) -> (v: T)
    requires
        T::wire_len() <= buffer_bytes(*old(src)).len(),
    ensures
        v == T::wire_at(buffer_bytes(*old(src)), 0),
        buffer_bytes(*final(src)) == buffer_bytes(*old(src)).skip(T::wire_len() as int),
        (Ok::<T, DecodeError>(v), buffer_bytes(*final(src))) == parse_fixed::<T>(
            buffer_bytes(*old(src)),
        ),
{
    let len: usize = T::size();
    let head = buffer_split_to(src, len);
    let bytes = buffer_to_vec(&head);
    let v = T::get(bytes.as_slice(), 0);
    proof {
        T::lemma_wire_window(buffer_bytes(*old(src)), bytes@);
    }
    v
}

/// Counts the bytes of `bytes` before its first zero byte; all of them if
/// it holds none.
pub fn name_length(bytes: &[u8]) -> (len: usize)
    ensures
        len == name_len(bytes@),
        len <= bytes@.len(),
{
    let mut i: usize = 0;
    while i < bytes.len() && bytes[i] != 0
        invariant
            i <= bytes@.len(),
            forall|j: int| 0 <= j < i ==> bytes@[j] != 0,
        decreases bytes@.len() - i,
    {
        i = i + 1;
    }
    proof {
        lemma_name_len_from_prefix(bytes@, i as int);
    }
    i
}

/// Takes a zero-terminated name from the front of the buffer: the bytes
/// before the first zero byte are returned, the zero byte is dropped.
///
/// The buffer must hold a zero byte.
pub fn fetch_str(src: &mut BytesMut) -> (name: Vec<u8>)
    requires
        name_len(buffer_bytes(*old(src))) < buffer_bytes(*old(src)).len(),
    ensures
        name@ == buffer_bytes(*old(src)).take(name_len(buffer_bytes(*old(src))) as int),
        buffer_bytes(*final(src)) == buffer_bytes(*old(src)).skip(
            name_len(buffer_bytes(*old(src))) as int + 1,
        ),
        (Ok::<Seq<u8>, DecodeError>(name@), buffer_bytes(*final(src))) == parse_name(
            buffer_bytes(*old(src)),
        ),
{
    let all = buffer_to_vec(src);
    let len = name_length(all.as_slice());
    let head = buffer_split_to(src, len);
    // Discard the zero byte
    buffer_advance(src, 1);
    let name = buffer_to_vec(&head);
    assert(buffer_bytes(*src) =~= buffer_bytes(*old(src)).skip(len + 1));
    assert(name@ =~= buffer_bytes(*old(src)).take(len as int));
    name
}

/// Takes a zero-terminated path from the front of the buffer. A path is
/// read as a name is.
pub fn fetch_path(src: &mut BytesMut) -> (path: Vec<u8>)
    requires
        name_len(buffer_bytes(*old(src))) < buffer_bytes(*old(src)).len(),
    ensures
        path@ == buffer_bytes(*old(src)).take(name_len(buffer_bytes(*old(src))) as int),
        buffer_bytes(*final(src)) == buffer_bytes(*old(src)).skip(
            name_len(buffer_bytes(*old(src))) as int + 1,
        ),
        (Ok::<Seq<u8>, DecodeError>(path@), buffer_bytes(*final(src))) == parse_name(
            buffer_bytes(*old(src)),
        ),
{
    fetch_str(src)
}

/// Takes a fixed-layout structure from the front of the buffer if the
/// buffer holds all of it.
fn take_fixed<T: Wire>(src: &mut BytesMut) -> (r: Result<T, DecodeError>)
    ensures
        (r, buffer_bytes(*final(src))) == parse_fixed::<T>(buffer_bytes(*old(src))),
{
    if buffer_len(src) < T::size() {
        Err(DecodeError::BodyTooShort)
    } else {
        Ok(fetch::<T>(src))
    }
}

/// Takes a name from the front of the buffer if the buffer holds its
/// terminator.
fn take_name(src: &mut BytesMut) -> (r: Result<Vec<u8>, DecodeError>)
    ensures
        match r {
            Ok(name) => (Ok::<Seq<u8>, DecodeError>(name@), buffer_bytes(*final(src)))
                == parse_name(buffer_bytes(*old(src))),
            Err(e) => (Err::<Seq<u8>, DecodeError>(e), buffer_bytes(*final(src))) == parse_name(
                buffer_bytes(*old(src)),
            ),
        },
{
    let all = buffer_to_vec(src);
    if name_length(all.as_slice()) < all.len() {
        Ok(fetch_str(src))
    } else {
        Err(DecodeError::MissingTerminator)
    }
}

/// Takes everything that the buffer holds.
fn take_data(src: &mut BytesMut) -> (data: Vec<u8>)
    ensures
        (Ok::<Seq<u8>, DecodeError>(data@), buffer_bytes(*final(src))) == parse_data(
            buffer_bytes(*old(src)),
        ),
{
    let len = buffer_len(src);
    let head = buffer_split_to(src, len);
    let data = buffer_to_vec(&head);
    assert(data@ =~= buffer_bytes(*old(src)));
    assert(buffer_bytes(*src) =~= Seq::<u8>::empty());
    data
}

/// The decoder of request frames. It keeps nothing between frames.
pub struct FuseRequestDecoder;

impl FuseRequestDecoder {
    /// A decoder.
    pub fn new() -> (decoder: FuseRequestDecoder) {
        FuseRequestDecoder
    }

    /// Decodes the request at the front of `src`.
    ///
    /// The outcome and what is left in `src` are those of
    /// [`parse_request`]: a result is a request (never `Ok(None)`), its
    /// operation is a supported one, and its body has the form that the
    /// operation calls for.
    pub fn decode(&mut self, src: &mut BytesMut) -> (r: Result<Option<FuseRequest>, DecodeError>)
        ensures
            match r {
                Ok(Some(req)) => parse_request(buffer_bytes(*old(src))).0 == Ok::<
                    RequestView,
                    DecodeError,
                >(req@) && supported_opcode(req.header.opcode),
                Ok(None) => false,
                Err(e) => parse_request(buffer_bytes(*old(src))).0 == Err::<
                    RequestView,
                    DecodeError,
                >(e),
            },
            buffer_bytes(*final(src)) == parse_request(buffer_bytes(*old(src))).1,
    {
        if buffer_len(src) < fuse_in_header::size() {
            return Err(DecodeError::HeaderTooShort);
        }
        let header = fetch::<fuse_in_header>(src);
        let opcode = match fuse_opcode::from_u32(header.opcode) {
            None => {
                return Err(DecodeError::UnknownOpcode(header.opcode));
            },
            Some(op) => op,
        };
        let body = match opcode {
            fuse_opcode::FUSE_INIT => RequestBody::Init(take_fixed::<fuse_init_in>(src)?),
            fuse_opcode::FUSE_DESTROY => RequestBody::Destroy(),
            fuse_opcode::FUSE_LOOKUP => RequestBody::Lookup(take_name(src)?),
            fuse_opcode::FUSE_FORGET => RequestBody::Forget(take_fixed::<fuse_forget_in>(src)?),
            fuse_opcode::FUSE_GETATTR => RequestBody::GetAttr(),
            fuse_opcode::FUSE_SETATTR => RequestBody::SetAttr(take_fixed::<fuse_setattr_in>(src)?),
            fuse_opcode::FUSE_READLINK => RequestBody::ReadLink(),
            fuse_opcode::FUSE_MKNOD => RequestBody::MkNod(take_fixed::<fuse_mknod_in>(src)?),
            fuse_opcode::FUSE_MKDIR => RequestBody::MkDir(take_name(src)?),
            fuse_opcode::FUSE_UNLINK => RequestBody::Unlink(take_name(src)?),
            fuse_opcode::FUSE_RMDIR => RequestBody::RmDir(take_name(src)?),
            fuse_opcode::FUSE_SYMLINK => {
                let name = take_name(src)?;
                let path = take_name(src)?;
                RequestBody::Symlink(name, path)
            },
            fuse_opcode::FUSE_RENAME => {
                let fixed = take_fixed::<fuse_rename_in>(src)?;
                let name = take_name(src)?;
                let newname = take_name(src)?;
                RequestBody::Rename(fixed, name, newname)
            },
            fuse_opcode::FUSE_LINK => {
                let fixed = take_fixed::<fuse_link_in>(src)?;
                let name = take_name(src)?;
                RequestBody::Link(fixed, name)
            },
            fuse_opcode::FUSE_OPEN => RequestBody::Open(take_fixed::<fuse_open_in>(src)?),
            fuse_opcode::FUSE_READ => RequestBody::Read(take_fixed::<fuse_read_in>(src)?),
            fuse_opcode::FUSE_WRITE => {
                let fixed = take_fixed::<fuse_write_in>(src)?;
                let data = take_data(src);
                RequestBody::Write(fixed, data)
            },
            fuse_opcode::FUSE_FLUSH => RequestBody::Flush(take_fixed::<fuse_flush_in>(src)?),
            fuse_opcode::FUSE_RELEASE => RequestBody::Release(take_fixed::<fuse_release_in>(src)?),
            fuse_opcode::FUSE_FSYNC => RequestBody::FSync(take_fixed::<fuse_fsync_in>(src)?),
            fuse_opcode::FUSE_OPENDIR => RequestBody::OpenDir(take_fixed::<fuse_open_in>(src)?),
            fuse_opcode::FUSE_READDIR => RequestBody::ReadDir(take_fixed::<fuse_read_in>(src)?),
            fuse_opcode::FUSE_RELEASEDIR => RequestBody::ReleaseDir(
                take_fixed::<fuse_release_in>(src)?,
            ),
            fuse_opcode::FUSE_FSYNCDIR => RequestBody::FSyncDir(take_fixed::<fuse_fsync_in>(src)?),
            fuse_opcode::FUSE_STATFS => RequestBody::StatFS(),
            fuse_opcode::FUSE_SETXATTR => {
                let fixed = take_fixed::<fuse_setxattr_in>(src)?;
                let data = take_data(src);
                RequestBody::SetXAttr(fixed, data)
            },
            fuse_opcode::FUSE_GETXATTR => RequestBody::GetXAttr(
                take_fixed::<fuse_getxattr_in>(src)?,
            ),
            fuse_opcode::FUSE_LISTXATTR => RequestBody::ListXAttr(
                take_fixed::<fuse_getxattr_in>(src)?,
            ),
            fuse_opcode::FUSE_REMOVEXATTR => RequestBody::RemoveXAttr(take_name(src)?),
            fuse_opcode::FUSE_ACCESS => RequestBody::Access(take_fixed::<fuse_access_in>(src)?),
            fuse_opcode::FUSE_CREATE => RequestBody::Create(take_fixed::<fuse_open_in>(src)?),
            fuse_opcode::FUSE_GETLK => RequestBody::GetLock(take_fixed::<fuse_lk_in>(src)?),
            fuse_opcode::FUSE_SETLK | fuse_opcode::FUSE_SETLKW => RequestBody::SetLock(
                take_fixed::<fuse_lk_in>(src)?,
            ),
            fuse_opcode::FUSE_BMAP => RequestBody::Bmap(take_fixed::<fuse_bmap_in>(src)?),
            fuse_opcode::FUSE_INTERRUPT => {
                return Err(DecodeError::Interrupt);
            },
        };
        Ok(Some(FuseRequest::new(header, body)))
    }
}

/// A structure is read back from a frame that starts with its image.
pub proof fn lemma_parse_fixed_wire<T: Wire>(v: T, rest: Seq<u8>)
    ensures
        parse_fixed::<T>(v.wire() + rest) == (Ok::<T, DecodeError>(v), rest),
{
    v.lemma_wire_at(Seq::empty(), rest);
    assert(Seq::<u8>::empty() + v.wire() + rest =~= v.wire() + rest);
    assert((v.wire() + rest).skip(T::wire_len() as int) =~= rest);
}

/// A name without zero bytes is read back from a frame that starts with
/// its image.
pub proof fn lemma_parse_name_wire(name: Seq<u8>, rest: Seq<u8>)
    requires
        nul_free(name),
    ensures
        parse_name(name_wire(name) + rest) == (Ok::<Seq<u8>, DecodeError>(name), rest),
{
    let s = name_wire(name) + rest;
    assert forall|i: int| 0 <= i < name.len() implies s[i] != 0 by {
        assert(s[i] == name[i]);
    }
    assert(s[name.len() as int] == 0);
    lemma_name_len_from_prefix(s, name.len() as int);
    assert(s.take(name.len() as int) =~= name);
    assert(s.skip(name.len() as int + 1) =~= rest);
}

/// Decoding undoes encoding: a well-formed request is read back from its
/// frame, whole and with nothing left in the buffer.
pub proof fn lemma_parse_request_wire(req: RequestView)
    requires
        req.wf(),
    ensures
        parse_request(req.wire()) == (Ok::<RequestView, DecodeError>(req), Seq::<u8>::empty()),
{
    let s = req.wire();
    let body = req.body_wire();
    let none = Seq::<u8>::empty();
    req.header.lemma_wire_at(none, body);
    assert(none + req.header.wire() + body =~= s);
    assert(s.skip(fuse_in_header::wire_len() as int) =~= body);
    let op = fuse_opcode::spec_from_u32(req.header.opcode)->Some_0;
    match req.body {
        RequestBody::Init(b) => {
            lemma_parse_fixed_wire(b, none);
            assert(b.wire() + none =~= body);
        },
        RequestBody::Destroy() => {},
        RequestBody::Lookup(n) => {
            lemma_parse_name_wire(n, none);
            assert(name_wire(n) + none =~= body);
        },
        RequestBody::Forget(b) => {
            lemma_parse_fixed_wire(b, none);
            assert(b.wire() + none =~= body);
        },
        RequestBody::GetAttr() => {},
        RequestBody::SetAttr(b) => {
            lemma_parse_fixed_wire(b, none);
            assert(b.wire() + none =~= body);
        },
        RequestBody::ReadLink() => {},
        RequestBody::MkNod(b) => {
            lemma_parse_fixed_wire(b, none);
            assert(b.wire() + none =~= body);
        },
        RequestBody::MkDir(n) => {
            lemma_parse_name_wire(n, none);
            assert(name_wire(n) + none =~= body);
        },
        RequestBody::Unlink(n) => {
            lemma_parse_name_wire(n, none);
            assert(name_wire(n) + none =~= body);
        },
        RequestBody::RmDir(n) => {
            lemma_parse_name_wire(n, none);
            assert(name_wire(n) + none =~= body);
        },
        RequestBody::Symlink(n, p) => {
            lemma_parse_name_wire(n, name_wire(p));
            lemma_parse_name_wire(p, none);
            assert(name_wire(p) + none =~= name_wire(p));
        },
        RequestBody::Rename(b, n, m) => {
            lemma_parse_fixed_wire(b, name_wire(n) + name_wire(m));
            lemma_parse_name_wire(n, name_wire(m));
            lemma_parse_name_wire(m, none);
            assert(name_wire(m) + none =~= name_wire(m));
            assert(b.wire() + (name_wire(n) + name_wire(m)) =~= body);
        },
        RequestBody::Link(b, n) => {
            lemma_parse_fixed_wire(b, name_wire(n));
            lemma_parse_name_wire(n, none);
            assert(name_wire(n) + none =~= name_wire(n));
        },
        RequestBody::Open(b) => {
            lemma_parse_fixed_wire(b, none);
            assert(b.wire() + none =~= body);
        },
        RequestBody::Read(b) => {
            lemma_parse_fixed_wire(b, none);
            assert(b.wire() + none =~= body);
        },
        RequestBody::Write(b, d) => {
            lemma_parse_fixed_wire(b, d);
        },
        RequestBody::Flush(b) => {
            lemma_parse_fixed_wire(b, none);
            assert(b.wire() + none =~= body);
        },
        RequestBody::Release(b) => {
            lemma_parse_fixed_wire(b, none);
            assert(b.wire() + none =~= body);
        },
        RequestBody::FSync(b) => {
            lemma_parse_fixed_wire(b, none);
            assert(b.wire() + none =~= body);
        },
        RequestBody::OpenDir(b) => {
            lemma_parse_fixed_wire(b, none);
            assert(b.wire() + none =~= body);
        },
        RequestBody::ReadDir(b) => {
            lemma_parse_fixed_wire(b, none);
            assert(b.wire() + none =~= body);
        },
        RequestBody::ReleaseDir(b) => {
            lemma_parse_fixed_wire(b, none);
            assert(b.wire() + none =~= body);
        },
        RequestBody::FSyncDir(b) => {
            lemma_parse_fixed_wire(b, none);
            assert(b.wire() + none =~= body);
        },
        RequestBody::StatFS() => {},
        RequestBody::SetXAttr(b, d) => {
            lemma_parse_fixed_wire(b, d);
        },
        RequestBody::GetXAttr(b) => {
            lemma_parse_fixed_wire(b, none);
            assert(b.wire() + none =~= body);
        },
        RequestBody::ListXAttr(b) => {
            lemma_parse_fixed_wire(b, none);
            assert(b.wire() + none =~= body);
        },
        RequestBody::RemoveXAttr(n) => {
            lemma_parse_name_wire(n, none);
            assert(name_wire(n) + none =~= body);
        },
        RequestBody::Access(b) => {
            lemma_parse_fixed_wire(b, none);
            assert(b.wire() + none =~= body);
        },
        RequestBody::Create(b) => {
            lemma_parse_fixed_wire(b, none);
            assert(b.wire() + none =~= body);
        },
        RequestBody::GetLock(b) => {
            lemma_parse_fixed_wire(b, none);
            assert(b.wire() + none =~= body);
        },
        RequestBody::SetLock(b) => {
            lemma_parse_fixed_wire(b, none);
            assert(b.wire() + none =~= body);
        },
        RequestBody::Bmap(b) => {
            lemma_parse_fixed_wire(b, none);
            assert(b.wire() + none =~= body);
        },
    }
}

/// Every decoded request names a supported operation and has the body
/// of that operation.
pub proof fn lemma_parsed_request_supported(s: Seq<u8>)
    ensures
        parse_request(s).0 matches Ok(req) ==> supported_opcode(req.header.opcode) && body_fits(
            fuse_opcode::spec_from_u32(req.header.opcode)->Some_0,
            req.body,
        ),
{
}


} // verus!
