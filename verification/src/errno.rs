//! The error numbers and file mode bits that replies carry, with the
//! values they have on Linux.

use vstd::prelude::*;

verus! {

/// Operation not permitted.
pub const EPERM: i32 = 1;

/// No such file or directory.
pub const ENOENT: i32 = 2;

/// Input/output error.
pub const EIO: i32 = 5;

/// Resource temporarily unavailable.
pub const EAGAIN: i32 = 11;

/// Permission denied.
pub const EACCES: i32 = 13;

/// File exists.
pub const EEXIST: i32 = 17;

/// Not a directory.
pub const ENOTDIR: i32 = 20;

/// Is a directory.
pub const EISDIR: i32 = 21;

/// Read-only file system.
pub const EROFS: i32 = 30;

/// Directory not empty.
pub const ENOTEMPTY: i32 = 39;

/// Mode bits of a named pipe.
pub const S_IFIFO: u32 = 0o010000;

/// Mode bits of a character device.
pub const S_IFCHR: u32 = 0o020000;

/// Mode bits of a directory.
pub const S_IFDIR: u32 = 0o040000;

/// Mode bits of a block device.
pub const S_IFBLK: u32 = 0o060000;

/// Mode bits of a regular file.
pub const S_IFREG: u32 = 0o100000;

/// Mode bits of a symbolic link.
pub const S_IFLNK: u32 = 0o120000;

/// Mode bits of a socket.
pub const S_IFSOCK: u32 = 0o140000;

} // verus!
