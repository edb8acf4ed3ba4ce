//! The errors that handlers report, and the error numbers they become in
//! a reply.

use vstd::prelude::*;
use crate::errno::{
    EACCES, EAGAIN, EEXIST, EIO, EISDIR, ENOENT, ENOTDIR, ENOTEMPTY, EPERM, EROFS,
};

verus! {

/// An error number of the operating system, as a file system operation
/// returned it.
#[derive(Clone, Copy, Debug, PartialEq, Eq, Structural)]
pub struct LibcError {
    error: usize,
}

impl LibcError {
    /// The error number.
    pub closed spec fn code(&self) -> usize {
        self.error
    }

    /// The error with number `error`.
    pub fn new(error: usize) -> (e: LibcError)
        ensures
            e.code() == error,
    {
        LibcError { error }
    }

    /// The error number.
    pub fn get_code(&self) -> (code: usize)
        ensures
            code == self.code(),
    {
        self.error
    }

    /// What went wrong, in words.
    pub fn description(&self) -> (text: &'static str)
        ensures
            text@ == "The filesytem operation could not be carried out and an error was returned"@,
    {
        "The filesytem operation could not be carried out and an error was returned"
    }
}

/// An error that any node may report.
#[derive(Clone, Copy, Debug, PartialEq, Eq, Structural)]
pub enum NodeError {
    NotImplemented,
    NoSuchEntry,
    IOError,
    PermissionDenied,
    TryAgain,
    ReadOnly,
}

/// An error that a file may report.
#[derive(Clone, Copy, Debug, PartialEq, Eq, Structural)]
pub enum FileError {
    FileNodeErr(NodeError),
    NoSuchFile,
    IsDirectory,
    FileExists,
}

/// An error that a directory may report.
#[derive(Clone, Copy, Debug, PartialEq, Eq, Structural)]
pub enum DirError {
    DirNodeErr(NodeError),
    NoSuchDirectory,
    IsNotDirectory,
    DirectoryNotEmpty,
}

/// An error that can be reported where a file error is expected.
pub trait IsFileError: Sized {
    /// The file error that stands for `self`.
    spec fn as_file_error(self) -> FileError;

    /// Turns the error into a file error.
    fn into_file_error(self) -> (e: FileError)
        ensures
            e == self.as_file_error(),
    ;
}

/// An error that can be reported where a directory error is expected.
pub trait IsDirError: Sized {
    /// The directory error that stands for `self`.
    spec fn as_dir_error(self) -> DirError;

    /// Turns the error into a directory error.
    fn into_dir_error(self) -> (e: DirError)
        ensures
            e == self.as_dir_error(),
    ;
}

impl IsFileError for NodeError {
    open spec fn as_file_error(self) -> FileError {
        FileError::FileNodeErr(self)
    }

    fn into_file_error(self) -> (e: FileError) {
        FileError::FileNodeErr(self)
    }
}

impl IsFileError for FileError {
    open spec fn as_file_error(self) -> FileError {
        self
    }

    fn into_file_error(self) -> (e: FileError) {
        self
    }
}

impl IsDirError for NodeError {
    open spec fn as_dir_error(self) -> DirError {
        DirError::DirNodeErr(self)
    }

    fn into_dir_error(self) -> (e: DirError) {
        DirError::DirNodeErr(self)
    }
}

impl IsDirError for DirError {
    open spec fn as_dir_error(self) -> DirError {
        self
    }

    fn into_dir_error(self) -> (e: DirError) {
        self
    }
}

impl NodeError {
    /// What went wrong, in words.
    pub open spec fn spec_description(self) -> Seq<char> {
        match self {
            NodeError::NotImplemented => "The requested operation is not implemented"@,
            NodeError::NoSuchEntry => "The requested node does not exist"@,
            NodeError::IOError => "An I/O Error occurred"@,
            NodeError::PermissionDenied => "The user does not have permission to execute the operation"@,
            NodeError::TryAgain => "Try again later"@,
            NodeError::ReadOnly => "This is a ReadOnly file system"@,
        }
    }

    /// The error number that a reply carries for this error.
    pub open spec fn libc_code(self) -> i32 {
        match self {
            NodeError::NotImplemented => EPERM,
            NodeError::NoSuchEntry => ENOENT,
            NodeError::IOError => EIO,
            NodeError::PermissionDenied => EACCES,
            NodeError::TryAgain => EAGAIN,
            NodeError::ReadOnly => EROFS,
        }
    }

    /// The error itself.
    pub fn new(val: NodeError) -> (e: NodeError)
        ensures
            e == val,
    {
        val
    }

    /// The error number that a reply carries for this error.
    pub fn get_libc_code(&self) -> (code: i32)
        ensures
            code == self.libc_code(),
            code > 0,
    {
        match *self {
            NodeError::NotImplemented => EPERM,
            NodeError::NoSuchEntry => ENOENT,
            NodeError::IOError => EIO,
            NodeError::PermissionDenied => EACCES,
            NodeError::TryAgain => EAGAIN,
            NodeError::ReadOnly => EROFS,
        }
    }

    /// What went wrong, in words.
    pub fn description(&self) -> (text: &'static str)
        ensures
            text@ == self.spec_description(),
    {
        match *self {
            NodeError::NotImplemented => "The requested operation is not implemented",
            NodeError::NoSuchEntry => "The requested node does not exist",
            NodeError::IOError => "An I/O Error occurred",
            NodeError::PermissionDenied => "The user does not have permission to execute the operation",
            NodeError::TryAgain => "Try again later",
            NodeError::ReadOnly => "This is a ReadOnly file system",
        }
    }
}

impl FileError {
    /// What went wrong, in words.
    pub open spec fn spec_description(self) -> Seq<char> {
        match self {
            FileError::FileNodeErr(inner) => inner.spec_description(),
            FileError::NoSuchFile => "The file does not exist"@,
            FileError::IsDirectory => "The requested object is a directory"@,
            FileError::FileExists => "The file already exists"@,
        }
    }

    /// The error number that a reply carries for this error.
    pub open spec fn libc_code(self) -> i32 {
        match self {
            FileError::FileNodeErr(inner) => inner.libc_code(),
            FileError::NoSuchFile => ENOENT,
            FileError::IsDirectory => EISDIR,
            FileError::FileExists => EEXIST,
        }
    }

    /// The file error that stands for `val`: a node error is wrapped, a
    /// file error is kept.
    pub fn new<T: IsFileError>(val: T) -> (e: FileError)
        ensures
            e == val.as_file_error(),
    {
        val.into_file_error()
    }

    /// The error number that a reply carries for this error.
    pub fn get_libc_code(&self) -> (code: i32)
        ensures
            code == self.libc_code(),
            code > 0,
    {
        match *self {
            FileError::FileNodeErr(ref inner) => inner.get_libc_code(),
            FileError::NoSuchFile => ENOENT,
            FileError::IsDirectory => EISDIR,
            FileError::FileExists => EEXIST,
        }
    }

    /// What went wrong, in words.
    pub fn description(&self) -> (text: &'static str)
        ensures
            text@ == self.spec_description(),
    {
        match *self {
            FileError::FileNodeErr(ref inner) => inner.description(),
            FileError::NoSuchFile => "The file does not exist",
            FileError::IsDirectory => "The requested object is a directory",
            FileError::FileExists => "The file already exists",
        }
    }
}

impl DirError {
    /// What went wrong, in words.
    pub open spec fn spec_description(self) -> Seq<char> {
        match self {
            DirError::DirNodeErr(inner) => inner.spec_description(),
            DirError::NoSuchDirectory => "The directory does not exist"@,
            DirError::IsNotDirectory => "The requested object is not a directory"@,
            DirError::DirectoryNotEmpty => "The directory is not empty"@,
        }
    }

    /// The error number that a reply carries for this error.
    pub open spec fn libc_code(self) -> i32 {
        match self {
            DirError::DirNodeErr(inner) => inner.libc_code(),
            DirError::NoSuchDirectory => ENOENT,
            DirError::IsNotDirectory => ENOTDIR,
            DirError::DirectoryNotEmpty => ENOTEMPTY,
        }
    }

    /// The directory error that stands for `val`: a node error is wrapped,
    /// a directory error is kept.
    pub fn new<T: IsDirError>(val: T) -> (e: DirError)
        ensures
            e == val.as_dir_error(),
    {
        val.into_dir_error()
    }

    /// The error number that a reply carries for this error.
    pub fn get_libc_code(&self) -> (code: i32)
        ensures
            code == self.libc_code(),
            code > 0,
    {
        match *self {
            DirError::DirNodeErr(ref inner) => inner.get_libc_code(),
            DirError::NoSuchDirectory => ENOENT,
            DirError::IsNotDirectory => ENOTDIR,
            DirError::DirectoryNotEmpty => ENOTEMPTY,
        }
    }

    /// What went wrong, in words.
    pub fn description(&self) -> (text: &'static str)
        ensures
            text@ == self.spec_description(),
    {
        match *self {
            DirError::DirNodeErr(ref inner) => inner.description(),
            DirError::NoSuchDirectory => "The directory does not exist",
            DirError::IsNotDirectory => "The requested object is not a directory",
            DirError::DirectoryNotEmpty => "The directory is not empty",
        }
    }
}

} // verus!
