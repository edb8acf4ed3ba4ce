//! Encoding of reply frames.
//!
//! A frame is a header of sixteen bytes and, unless the reply is an error,
//! a body. [`response_frame`] says which bytes a reply is, and
//! [`FuseResponseEncoder::encode`] appends them to a buffer.

use bytes::BytesMut;
use vstd::prelude::*;
use crate::abi::{
    fuse_attr_out, fuse_bmap_out, fuse_entry_out, fuse_lk_out, fuse_open_out, fuse_out_header,
    fuse_statfs_out, fuse_write_out, Wire,
};
use crate::buffer::{buffer_bytes, buffer_extend};
use crate::response::{FuseResponse, FuseResponseBody};
use crate::wire::put_bytes;

verus! {

/// Why a reply was not encoded.
#[derive(Clone, Copy, Debug, PartialEq, Eq, Structural)]
pub enum EncodeError {
    /// The reply is of a kind that is not served.
    Unimplemented,
    /// The frame would be longer than its 32-bit length field can say.
    TooLong,
}

impl EncodeError {
    /// A short text for the failure.
    pub open spec fn spec_message(self) -> Seq<char> {
        match self {
            EncodeError::Unimplemented => "This Response is unimplemented"@,
            EncodeError::TooLong => "The response is too long"@,
        }
    }

    /// A short text for the failure.
    pub fn message(self) -> (text: &'static str)
        ensures
            text@ == self.spec_message(),
    {
        match self {
            EncodeError::Unimplemented => "This Response is unimplemented",
            EncodeError::TooLong => "The response is too long",
        }
    }
}

/// The error number as it stands in a frame: negated. The one number
/// without a negative keeps its value.
pub open spec fn negated(error: i32) -> i32 {
    if error == i32::MIN {
        error
    } else {
        (-error) as i32
    }
}

/// The header that is written for a reply: the length of the whole frame,
/// the negated error, and the request's number.
pub open spec fn frame_header(resp: &FuseResponse) -> fuse_out_header {
    if resp.header.error != 0 {
        fuse_out_header {
            len: fuse_out_header::wire_len() as u32,
            error: negated(resp.header.error),
            unique: resp.header.unique,
        }
    } else {
        fuse_out_header {
            len: (fuse_out_header::wire_len() + resp.body.wire().len()) as u32,
            error: 0,
            unique: resp.header.unique,
        }
    }
}

/// The frame of a reply, or why it has none.
///
/// An error reply is its header alone, whatever its body. Any other reply
/// is its header and the bytes of its body.
pub open spec fn response_frame(resp: &FuseResponse) -> Result<Seq<u8>, EncodeError> {
    if resp.header.error != 0 {
        Ok(frame_header(resp).wire())
    } else if !resp.body.implemented() {
        Err(EncodeError::Unimplemented)
    } else if fuse_out_header::wire_len() + resp.body.wire().len() > u32::MAX {
        Err(EncodeError::TooLong)
    } else {
        Ok(frame_header(resp).wire() + resp.body.wire())
    }
}

/// The header of a frame says how long the frame is, and is read back
/// from it.
pub proof fn lemma_frame_header(resp: &FuseResponse)
    ensures
        response_frame(resp) matches Ok(frame) ==> {
            &&& fuse_out_header::wire_at(frame, 0) == frame_header(resp)
            &&& frame_header(resp).len == frame.len()
            &&& resp.header.error != 0 ==> frame.len() == fuse_out_header::wire_len()
        },
{
    let head = frame_header(resp);
    let none = Seq::<u8>::empty();
    if resp.header.error != 0 {
        head.lemma_wire_at(none, none);
        assert(none + head.wire() + none =~= head.wire());
    } else {
        head.lemma_wire_at(none, resp.body.wire());
        assert(none + head.wire() + resp.body.wire() =~= head.wire() + resp.body.wire());
    }
}

/// Every failure reaches the kernel as the negated error number: the
/// frame of a reply with the error number `errno` is a header with the
/// length of a header, minus `errno`, and the request's number, and
/// nothing else.
pub proof fn lemma_error_frame(resp: &FuseResponse)
    requires
        resp.header.error > 0,
    ensures
        response_frame(resp) == Ok::<Seq<u8>, EncodeError>(
            (fuse_out_header {
                len: 16,
                error: (-resp.header.error) as i32,
                unique: resp.header.unique,
            }).wire(),
        ),
        response_frame(resp) matches Ok(frame) && {
            &&& frame.len() == fuse_out_header::wire_len()
            &&& fuse_out_header::wire_at(frame, 0).error == -resp.header.error
            &&& fuse_out_header::wire_at(frame, 0).unique == resp.header.unique
            &&& fuse_out_header::wire_at(frame, 0).len == frame.len()
        },
{
    lemma_frame_header(resp);
}

/// The body of a reply without an error is read back from its frame: a
/// structure at its place after the header, data and listings as all that
/// follows the header.
pub proof fn lemma_frame_body(resp: &FuseResponse)
    requires
        resp.header.error == 0,
    ensures
        response_frame(resp) matches Ok(frame) ==> {
            &&& frame.skip(fuse_out_header::wire_len() as int) == resp.body.wire()
            &&& match resp.body {
                FuseResponseBody::Init()
                | FuseResponseBody::Destroy()
                | FuseResponseBody::Forget()
                | FuseResponseBody::SetAttr()
                | FuseResponseBody::Unlink()
                | FuseResponseBody::RmDir()
                | FuseResponseBody::Rename()
                | FuseResponseBody::Flush()
                | FuseResponseBody::Release()
                | FuseResponseBody::FSync()
                | FuseResponseBody::ReleaseDir()
                | FuseResponseBody::FSyncDir()
                | FuseResponseBody::Access()
                | FuseResponseBody::SetLock()
                | FuseResponseBody::SetXAttr()
                | FuseResponseBody::RemoveXAttr() => frame.len() == fuse_out_header::wire_len(),
                FuseResponseBody::Lookup(b)
                | FuseResponseBody::MkNod(b)
                | FuseResponseBody::MkDir(b)
                | FuseResponseBody::Symlink(b)
                | FuseResponseBody::Link(b) => fuse_entry_out::wire_at(frame, 16) == b,
                FuseResponseBody::Open(b)
                | FuseResponseBody::OpenDir(b) => fuse_open_out::wire_at(frame, 16) == b,
                FuseResponseBody::GetAttr(b)
                | FuseResponseBody::SetAttrOut(b) => fuse_attr_out::wire_at(frame, 16) == b,
                FuseResponseBody::ReadLink(d)
                | FuseResponseBody::Read(d)
                | FuseResponseBody::GetXAttr(d)
                | FuseResponseBody::ListXAttr(d) => frame.skip(16) == d@,
                FuseResponseBody::ReadDir(r) => frame.skip(16) == r@,
                FuseResponseBody::Create(e, o) => fuse_entry_out::wire_at(frame, 16) == e
                    && fuse_open_out::wire_at(frame, 136) == o,
                FuseResponseBody::StatFS(b) => fuse_statfs_out::wire_at(frame, 16) == b,
                FuseResponseBody::GetLock(b) => fuse_lk_out::wire_at(frame, 16) == b,
                FuseResponseBody::Bmap(b) => fuse_bmap_out::wire_at(frame, 16) == b,
                FuseResponseBody::Write(b) => fuse_write_out::wire_at(frame, 16) == b,
                FuseResponseBody::Interrupt()
                | FuseResponseBody::GetXTimes() => false,
            }
        },
{
    let head = frame_header(resp);
    let body = resp.body.wire();
    let none = Seq::<u8>::empty();
    head.lemma_wire_at(none, body);
    if response_frame(resp) is Ok {
        let frame = response_frame(resp)->Ok_0;
        assert(frame.skip(16) =~= body);
        match resp.body {
            FuseResponseBody::Init()
            | FuseResponseBody::Destroy()
            | FuseResponseBody::Forget()
            | FuseResponseBody::SetAttr()
            | FuseResponseBody::Unlink()
            | FuseResponseBody::RmDir()
            | FuseResponseBody::Rename()
            | FuseResponseBody::Flush()
            | FuseResponseBody::Release()
            | FuseResponseBody::FSync()
            | FuseResponseBody::ReleaseDir()
            | FuseResponseBody::FSyncDir()
            | FuseResponseBody::Access()
            | FuseResponseBody::SetLock()
            | FuseResponseBody::SetXAttr()
            | FuseResponseBody::RemoveXAttr() => {},
            FuseResponseBody::Lookup(b)
            | FuseResponseBody::MkNod(b)
            | FuseResponseBody::MkDir(b)
            | FuseResponseBody::Symlink(b)
            | FuseResponseBody::Link(b) => {
                b.lemma_wire_at(head.wire(), none);
                assert(head.wire() + b.wire() + none =~= frame);
            },
            FuseResponseBody::Open(b)
            | FuseResponseBody::OpenDir(b) => {
                b.lemma_wire_at(head.wire(), none);
                assert(head.wire() + b.wire() + none =~= frame);
            },
            FuseResponseBody::GetAttr(b)
            | FuseResponseBody::SetAttrOut(b) => {
                b.lemma_wire_at(head.wire(), none);
                assert(head.wire() + b.wire() + none =~= frame);
            },
            FuseResponseBody::ReadLink(d)
            | FuseResponseBody::Read(d)
            | FuseResponseBody::GetXAttr(d)
            | FuseResponseBody::ListXAttr(d) => {},
            FuseResponseBody::ReadDir(r) => {},
            FuseResponseBody::Create(e, o) => {
                e.lemma_wire_at(head.wire(), o.wire());
                o.lemma_wire_at(head.wire() + e.wire(), none);
                assert(head.wire() + e.wire() + o.wire() =~= frame);
                assert(head.wire() + e.wire() + o.wire() + none =~= frame);
            },
            FuseResponseBody::StatFS(b) => {
                b.lemma_wire_at(head.wire(), none);
                assert(head.wire() + b.wire() + none =~= frame);
            },
            FuseResponseBody::GetLock(b) => {
                b.lemma_wire_at(head.wire(), none);
                assert(head.wire() + b.wire() + none =~= frame);
            },
            FuseResponseBody::Bmap(b) => {
                b.lemma_wire_at(head.wire(), none);
                assert(head.wire() + b.wire() + none =~= frame);
            },
            FuseResponseBody::Write(b) => {
                b.lemma_wire_at(head.wire(), none);
                assert(head.wire() + b.wire() + none =~= frame);
            },
            FuseResponseBody::Interrupt()
            | FuseResponseBody::GetXTimes() => {},
        }
    }
}

/// Computes the error number as it stands in a frame.
fn negate(error: i32) -> (r: i32)
    ensures
        r == negated(error),
{
    if error == i32::MIN {
        error
    } else {
        -error
    }
}

/// The encoder of reply frames. It keeps nothing between frames.
pub struct FuseResponseEncoder;

impl FuseResponseEncoder {
    /// An encoder.
    pub fn new() -> (encoder: FuseResponseEncoder) {
        FuseResponseEncoder
    }

    /// Appends the frame of `item` to `dst`.
    ///
    /// Where the reply has no frame, the failure is returned and `dst` is
    /// left as it was.
    pub fn encode(&mut self, item: FuseResponse, dst: &mut BytesMut) -> (r: Result<
        (),
        EncodeError,
    >)
        ensures
            match response_frame(&item) {
                Ok(frame) => r == Ok::<(), EncodeError>(()) && buffer_bytes(*final(dst))
                    == buffer_bytes(*old(dst)) + frame,
                Err(e) => r == Err::<(), EncodeError>(e) && buffer_bytes(*final(dst))
                    == buffer_bytes(*old(dst)),
            },
    {
        let mut frame: Vec<u8> = Vec::new();
        // If the header contains an error, there is no body: the header
        // alone is written.
        if item.header.error != 0 {
            let header = fuse_out_header {
                len: 16,
                error: negate(item.header.error),
                unique: item.header.unique,
            };
            header.put(&mut frame);
            buffer_extend(dst, frame.as_slice());
            assert(frame@ =~= header.wire());
            return Ok(());
        }
        let mut body: Vec<u8> = Vec::new();
        match &item.body {
            FuseResponseBody::Init()
            | FuseResponseBody::Destroy()
            | FuseResponseBody::Forget()
            | FuseResponseBody::SetAttr()
            | FuseResponseBody::Unlink()
            | FuseResponseBody::RmDir()
            | FuseResponseBody::Rename()
            | FuseResponseBody::Flush()
            | FuseResponseBody::Release()
            | FuseResponseBody::FSync()
            | FuseResponseBody::ReleaseDir()
            | FuseResponseBody::FSyncDir()
            | FuseResponseBody::Access()
            | FuseResponseBody::SetLock()
            | FuseResponseBody::SetXAttr()
            | FuseResponseBody::RemoveXAttr() => {},
            FuseResponseBody::Lookup(b)
            | FuseResponseBody::MkNod(b)
            | FuseResponseBody::MkDir(b)
            | FuseResponseBody::Symlink(b)
            | FuseResponseBody::Link(b) => {
                b.put(&mut body);
            },
            FuseResponseBody::Open(b)
            | FuseResponseBody::OpenDir(b) => {
                b.put(&mut body);
            },
            FuseResponseBody::GetAttr(b)
            | FuseResponseBody::SetAttrOut(b) => {
                b.put(&mut body);
            },
            FuseResponseBody::ReadLink(d)
            | FuseResponseBody::Read(d)
            | FuseResponseBody::GetXAttr(d)
            | FuseResponseBody::ListXAttr(d) => {
                put_bytes(&mut body, d.as_slice());
            },
            FuseResponseBody::ReadDir(r) => {
                put_bytes(&mut body, r.as_slice());
            },
            FuseResponseBody::Create(e, o) => {
                e.put(&mut body);
                o.put(&mut body);
            },
            FuseResponseBody::StatFS(b) => {
                b.put(&mut body);
            },
            FuseResponseBody::GetLock(b) => {
                b.put(&mut body);
            },
            FuseResponseBody::Bmap(b) => {
                b.put(&mut body);
            },
            FuseResponseBody::Write(b) => {
                b.put(&mut body);
            },
            FuseResponseBody::Interrupt()
            | FuseResponseBody::GetXTimes() => {
                return Err(EncodeError::Unimplemented);
            },
        }
        assert(body@ =~= item.body.wire());
        if body.len() > 0xffff_ffef {
            return Err(EncodeError::TooLong);
        }
        let header = fuse_out_header {
            len: 16 + body.len() as u32,
            error: 0,
            unique: item.header.unique,
        };
        header.put(&mut frame);
        put_bytes(&mut frame, body.as_slice());
        buffer_extend(dst, frame.as_slice());
        assert(frame@ =~= header.wire() + body@);
        Ok(())
    }
}

} // verus!
