//! The operations of the FUSE kernel interface and their numbers.
#![allow(non_camel_case_types)]

use vstd::prelude::*;

verus! {

/// One operation that the kernel may ask for.
///
/// The operations that only one other operating system sends have no
/// variant: their numbers are unknown here.
#[derive(Clone, Copy, Debug, PartialEq, Eq, Structural)]
pub enum fuse_opcode {
    FUSE_LOOKUP,
    FUSE_FORGET,
    FUSE_GETATTR,
    FUSE_SETATTR,
    FUSE_READLINK,
    FUSE_SYMLINK,
    FUSE_MKNOD,
    FUSE_MKDIR,
    FUSE_UNLINK,
    FUSE_RMDIR,
    FUSE_RENAME,
    FUSE_LINK,
    FUSE_OPEN,
    FUSE_READ,
    FUSE_WRITE,
    FUSE_STATFS,
    FUSE_RELEASE,
    FUSE_FSYNC,
    FUSE_SETXATTR,
    FUSE_GETXATTR,
    FUSE_LISTXATTR,
    FUSE_REMOVEXATTR,
    FUSE_FLUSH,
    FUSE_INIT,
    FUSE_OPENDIR,
    FUSE_READDIR,
    FUSE_RELEASEDIR,
    FUSE_FSYNCDIR,
    FUSE_GETLK,
    FUSE_SETLK,
    FUSE_SETLKW,
    FUSE_ACCESS,
    FUSE_CREATE,
    FUSE_INTERRUPT,
    FUSE_BMAP,
    FUSE_DESTROY,
}

impl fuse_opcode {
    /// The number that stands for the operation in a request header.
    pub open spec fn spec_number(self) -> u32 {
        match self {
            fuse_opcode::FUSE_LOOKUP => 1,
            fuse_opcode::FUSE_FORGET => 2,
            fuse_opcode::FUSE_GETATTR => 3,
            fuse_opcode::FUSE_SETATTR => 4,
            fuse_opcode::FUSE_READLINK => 5,
            fuse_opcode::FUSE_SYMLINK => 6,
            fuse_opcode::FUSE_MKNOD => 8,
            fuse_opcode::FUSE_MKDIR => 9,
            fuse_opcode::FUSE_UNLINK => 10,
            fuse_opcode::FUSE_RMDIR => 11,
            fuse_opcode::FUSE_RENAME => 12,
            fuse_opcode::FUSE_LINK => 13,
            fuse_opcode::FUSE_OPEN => 14,
            fuse_opcode::FUSE_READ => 15,
            fuse_opcode::FUSE_WRITE => 16,
            fuse_opcode::FUSE_STATFS => 17,
            fuse_opcode::FUSE_RELEASE => 18,
            fuse_opcode::FUSE_FSYNC => 20,
            fuse_opcode::FUSE_SETXATTR => 21,
            fuse_opcode::FUSE_GETXATTR => 22,
            fuse_opcode::FUSE_LISTXATTR => 23,
            fuse_opcode::FUSE_REMOVEXATTR => 24,
            fuse_opcode::FUSE_FLUSH => 25,
            fuse_opcode::FUSE_INIT => 26,
            fuse_opcode::FUSE_OPENDIR => 27,
            fuse_opcode::FUSE_READDIR => 28,
            fuse_opcode::FUSE_RELEASEDIR => 29,
            fuse_opcode::FUSE_FSYNCDIR => 30,
            fuse_opcode::FUSE_GETLK => 31,
            fuse_opcode::FUSE_SETLK => 32,
            fuse_opcode::FUSE_SETLKW => 33,
            fuse_opcode::FUSE_ACCESS => 34,
            fuse_opcode::FUSE_CREATE => 35,
            fuse_opcode::FUSE_INTERRUPT => 36,
            fuse_opcode::FUSE_BMAP => 37,
            fuse_opcode::FUSE_DESTROY => 38,
        }
    }

    /// The operation that `n` stands for, if it stands for one.
    pub open spec fn spec_from_u32(n: u32) -> Option<fuse_opcode> {
        if n == 1 {
            Some(fuse_opcode::FUSE_LOOKUP)
        } else if n == 2 {
            Some(fuse_opcode::FUSE_FORGET)
        } else if n == 3 {
            Some(fuse_opcode::FUSE_GETATTR)
        } else if n == 4 {
            Some(fuse_opcode::FUSE_SETATTR)
        } else if n == 5 {
            Some(fuse_opcode::FUSE_READLINK)
        } else if n == 6 {
            Some(fuse_opcode::FUSE_SYMLINK)
        } else if n == 8 {
            Some(fuse_opcode::FUSE_MKNOD)
        } else if n == 9 {
            Some(fuse_opcode::FUSE_MKDIR)
        } else if n == 10 {
            Some(fuse_opcode::FUSE_UNLINK)
        } else if n == 11 {
            Some(fuse_opcode::FUSE_RMDIR)
        } else if n == 12 {
            Some(fuse_opcode::FUSE_RENAME)
        } else if n == 13 {
            Some(fuse_opcode::FUSE_LINK)
        } else if n == 14 {
            Some(fuse_opcode::FUSE_OPEN)
        } else if n == 15 {
            Some(fuse_opcode::FUSE_READ)
        } else if n == 16 {
            Some(fuse_opcode::FUSE_WRITE)
        } else if n == 17 {
            Some(fuse_opcode::FUSE_STATFS)
        } else if n == 18 {
            Some(fuse_opcode::FUSE_RELEASE)
        } else if n == 20 {
            Some(fuse_opcode::FUSE_FSYNC)
        } else if n == 21 {
            Some(fuse_opcode::FUSE_SETXATTR)
        } else if n == 22 {
            Some(fuse_opcode::FUSE_GETXATTR)
        } else if n == 23 {
            Some(fuse_opcode::FUSE_LISTXATTR)
        } else if n == 24 {
            Some(fuse_opcode::FUSE_REMOVEXATTR)
        } else if n == 25 {
            Some(fuse_opcode::FUSE_FLUSH)
        } else if n == 26 {
            Some(fuse_opcode::FUSE_INIT)
        } else if n == 27 {
            Some(fuse_opcode::FUSE_OPENDIR)
        } else if n == 28 {
            Some(fuse_opcode::FUSE_READDIR)
        } else if n == 29 {
            Some(fuse_opcode::FUSE_RELEASEDIR)
        } else if n == 30 {
            Some(fuse_opcode::FUSE_FSYNCDIR)
        } else if n == 31 {
            Some(fuse_opcode::FUSE_GETLK)
        } else if n == 32 {
            Some(fuse_opcode::FUSE_SETLK)
        } else if n == 33 {
            Some(fuse_opcode::FUSE_SETLKW)
        } else if n == 34 {
            Some(fuse_opcode::FUSE_ACCESS)
        } else if n == 35 {
            Some(fuse_opcode::FUSE_CREATE)
        } else if n == 36 {
            Some(fuse_opcode::FUSE_INTERRUPT)
        } else if n == 37 {
            Some(fuse_opcode::FUSE_BMAP)
        } else if n == 38 {
            Some(fuse_opcode::FUSE_DESTROY)
        } else {
            None
        }
    }

    /// The number that stands for the operation in a request header.
    #[verifier::when_used_as_spec(spec_number)]
    pub fn number(self) -> (n: u32)
        ensures
            n == self.spec_number(),
    {
        match self {
            fuse_opcode::FUSE_LOOKUP => 1,
            fuse_opcode::FUSE_FORGET => 2,
            fuse_opcode::FUSE_GETATTR => 3,
            fuse_opcode::FUSE_SETATTR => 4,
            fuse_opcode::FUSE_READLINK => 5,
            fuse_opcode::FUSE_SYMLINK => 6,
            fuse_opcode::FUSE_MKNOD => 8,
            fuse_opcode::FUSE_MKDIR => 9,
            fuse_opcode::FUSE_UNLINK => 10,
            fuse_opcode::FUSE_RMDIR => 11,
            fuse_opcode::FUSE_RENAME => 12,
            fuse_opcode::FUSE_LINK => 13,
            fuse_opcode::FUSE_OPEN => 14,
            fuse_opcode::FUSE_READ => 15,
            fuse_opcode::FUSE_WRITE => 16,
            fuse_opcode::FUSE_STATFS => 17,
            fuse_opcode::FUSE_RELEASE => 18,
            fuse_opcode::FUSE_FSYNC => 20,
            fuse_opcode::FUSE_SETXATTR => 21,
            fuse_opcode::FUSE_GETXATTR => 22,
            fuse_opcode::FUSE_LISTXATTR => 23,
            fuse_opcode::FUSE_REMOVEXATTR => 24,
            fuse_opcode::FUSE_FLUSH => 25,
            fuse_opcode::FUSE_INIT => 26,
            fuse_opcode::FUSE_OPENDIR => 27,
            fuse_opcode::FUSE_READDIR => 28,
            fuse_opcode::FUSE_RELEASEDIR => 29,
            fuse_opcode::FUSE_FSYNCDIR => 30,
            fuse_opcode::FUSE_GETLK => 31,
            fuse_opcode::FUSE_SETLK => 32,
            fuse_opcode::FUSE_SETLKW => 33,
            fuse_opcode::FUSE_ACCESS => 34,
            fuse_opcode::FUSE_CREATE => 35,
            fuse_opcode::FUSE_INTERRUPT => 36,
            fuse_opcode::FUSE_BMAP => 37,
            fuse_opcode::FUSE_DESTROY => 38,
        }
    }

    /// The operation that `n` stands for; `None` for every other number.
    #[verifier::when_used_as_spec(spec_from_u32)]
    pub fn from_u32(n: u32) -> (op: Option<fuse_opcode>)
        ensures
            op == fuse_opcode::spec_from_u32(n),
    {
        match n {
            1 => Some(fuse_opcode::FUSE_LOOKUP),
            2 => Some(fuse_opcode::FUSE_FORGET),
            3 => Some(fuse_opcode::FUSE_GETATTR),
            4 => Some(fuse_opcode::FUSE_SETATTR),
            5 => Some(fuse_opcode::FUSE_READLINK),
            6 => Some(fuse_opcode::FUSE_SYMLINK),
            8 => Some(fuse_opcode::FUSE_MKNOD),
            9 => Some(fuse_opcode::FUSE_MKDIR),
            10 => Some(fuse_opcode::FUSE_UNLINK),
            11 => Some(fuse_opcode::FUSE_RMDIR),
            12 => Some(fuse_opcode::FUSE_RENAME),
            13 => Some(fuse_opcode::FUSE_LINK),
            14 => Some(fuse_opcode::FUSE_OPEN),
            15 => Some(fuse_opcode::FUSE_READ),
            16 => Some(fuse_opcode::FUSE_WRITE),
            17 => Some(fuse_opcode::FUSE_STATFS),
            18 => Some(fuse_opcode::FUSE_RELEASE),
            20 => Some(fuse_opcode::FUSE_FSYNC),
            21 => Some(fuse_opcode::FUSE_SETXATTR),
            22 => Some(fuse_opcode::FUSE_GETXATTR),
            23 => Some(fuse_opcode::FUSE_LISTXATTR),
            24 => Some(fuse_opcode::FUSE_REMOVEXATTR),
            25 => Some(fuse_opcode::FUSE_FLUSH),
            26 => Some(fuse_opcode::FUSE_INIT),
            27 => Some(fuse_opcode::FUSE_OPENDIR),
            28 => Some(fuse_opcode::FUSE_READDIR),
            29 => Some(fuse_opcode::FUSE_RELEASEDIR),
            30 => Some(fuse_opcode::FUSE_FSYNCDIR),
            31 => Some(fuse_opcode::FUSE_GETLK),
            32 => Some(fuse_opcode::FUSE_SETLK),
            33 => Some(fuse_opcode::FUSE_SETLKW),
            34 => Some(fuse_opcode::FUSE_ACCESS),
            35 => Some(fuse_opcode::FUSE_CREATE),
            36 => Some(fuse_opcode::FUSE_INTERRUPT),
            37 => Some(fuse_opcode::FUSE_BMAP),
            38 => Some(fuse_opcode::FUSE_DESTROY),
            _ => None,
        }
    }

    /// Every operation is found again by its number, and a number that
    /// stands for an operation is that operation's number.
    pub proof fn lemma_number_round_trip(self, n: u32)
        ensures
            fuse_opcode::spec_from_u32(self.spec_number()) == Some(self),
            fuse_opcode::spec_from_u32(n) == Some(self) ==> n == self.spec_number(),
    {
    }
}

} // verus!
