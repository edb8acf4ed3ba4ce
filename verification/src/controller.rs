//! The caller of a request, as handlers see it.

use vstd::prelude::*;
use crate::abi::fuse_in_header;

verus! {

/// Who asks, and under which number the kernel waits for the answer.
#[derive(Clone, Copy, Debug, PartialEq, Eq, Structural)]
pub struct Request {
    id: u64,
    uid: u32,
    gid: u32,
    pid: u32,
}

impl Request {
    /// The number of the request, which its reply repeats.
    pub closed spec fn spec_id(&self) -> u64 {
        self.id
    }

    /// The user id of the caller.
    pub closed spec fn spec_uid(&self) -> u32 {
        self.uid
    }

    /// The group id of the caller.
    pub closed spec fn spec_gid(&self) -> u32 {
        self.gid
    }

    /// The process id of the caller.
    pub closed spec fn spec_pid(&self) -> u32 {
        self.pid
    }

    /// The context of a request with number `id` from the process `pid`
    /// of user `uid` and group `gid`.
    pub fn new(id: u64, uid: u32, gid: u32, pid: u32) -> (req: Request)
        ensures
            req.spec_id() == id,
            req.spec_uid() == uid,
            req.spec_gid() == gid,
            req.spec_pid() == pid,
    {
        Request { id, uid, gid, pid }
    }

    /// The context of the request with the given header.
    pub fn from_header(header: &fuse_in_header) -> (req: Request)
        ensures
            req.spec_id() == header.unique,
            req.spec_uid() == header.uid,
            req.spec_gid() == header.gid,
            req.spec_pid() == header.pid,
    {
        Request { id: header.unique, uid: header.uid, gid: header.gid, pid: header.pid }
    }

    /// The number of the request, which its reply repeats.
    #[verifier::when_used_as_spec(spec_id)]
    pub fn id(&self) -> (id: u64)
        ensures
            id == self.spec_id(),
    {
        self.id
    }

    /// The user id of the caller.
    #[verifier::when_used_as_spec(spec_uid)]
    pub fn uid(&self) -> (uid: u32)
        ensures
            uid == self.spec_uid(),
    {
        self.uid
    }

    /// The group id of the caller.
    #[verifier::when_used_as_spec(spec_gid)]
    pub fn gid(&self) -> (gid: u32)
        ensures
            gid == self.spec_gid(),
    {
        self.gid
    }

    /// The process id of the caller.
    #[verifier::when_used_as_spec(spec_pid)]
    pub fn pid(&self) -> (pid: u32)
        ensures
            pid == self.spec_pid(),
    {
        self.pid
    }
}

} // verus!
