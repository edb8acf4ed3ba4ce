use strato::controller::Request;
use strato::engine::Engine;
use strato::errno::{
    EACCES, EAGAIN, EEXIST, EIO, EISDIR, ENOENT, ENOTDIR, ENOTEMPTY, EPERM, EROFS, S_IFBLK,
    S_IFCHR, S_IFDIR, S_IFIFO, S_IFLNK, S_IFREG, S_IFSOCK,
};
use strato::error::{DirError, FileError, LibcError, NodeError};
use strato::file::{
    fuse_attr_from_attr, mode_from_kind_and_perm, system_time_decompose, FileAttr, FileType,
};
use strato::handler::{Handle, HandleDispatcher};
use strato::link::{DirectoryEntry, NodeEntry};
use strato::registry::Registry;
use strato::utils::InoGenerator;
use time::Timespec;

#[test]
fn error_numbers_are_those_of_the_system() {
    assert_eq!(EPERM, libc::EPERM);
    assert_eq!(ENOENT, libc::ENOENT);
    assert_eq!(EIO, libc::EIO);
    assert_eq!(EAGAIN, libc::EAGAIN);
    assert_eq!(EACCES, libc::EACCES);
    assert_eq!(EEXIST, libc::EEXIST);
    assert_eq!(ENOTDIR, libc::ENOTDIR);
    assert_eq!(EISDIR, libc::EISDIR);
    assert_eq!(EROFS, libc::EROFS);
    assert_eq!(ENOTEMPTY, libc::ENOTEMPTY);
    assert_eq!(S_IFIFO, libc::S_IFIFO as u32);
    assert_eq!(S_IFCHR, libc::S_IFCHR as u32);
    assert_eq!(S_IFBLK, libc::S_IFBLK as u32);
    assert_eq!(S_IFDIR, libc::S_IFDIR as u32);
    assert_eq!(S_IFREG, libc::S_IFREG as u32);
    assert_eq!(S_IFLNK, libc::S_IFLNK as u32);
    assert_eq!(S_IFSOCK, libc::S_IFSOCK as u32);
}

#[test]
fn every_error_has_its_number() {
    assert_eq!(NodeError::NotImplemented.get_libc_code(), libc::EPERM);
    assert_eq!(NodeError::NoSuchEntry.get_libc_code(), libc::ENOENT);
    assert_eq!(NodeError::IOError.get_libc_code(), libc::EIO);
    assert_eq!(NodeError::PermissionDenied.get_libc_code(), libc::EACCES);
    assert_eq!(NodeError::TryAgain.get_libc_code(), libc::EAGAIN);
    assert_eq!(NodeError::ReadOnly.get_libc_code(), libc::EROFS);

    assert_eq!(FileError::NoSuchFile.get_libc_code(), libc::ENOENT);
    assert_eq!(FileError::IsDirectory.get_libc_code(), libc::EISDIR);
    assert_eq!(FileError::FileExists.get_libc_code(), libc::EEXIST);
    assert_eq!(FileError::FileNodeErr(NodeError::ReadOnly).get_libc_code(), libc::EROFS);
    assert_eq!(FileError::FileNodeErr(NodeError::NotImplemented).get_libc_code(), libc::EPERM);

    assert_eq!(DirError::NoSuchDirectory.get_libc_code(), libc::ENOENT);
    assert_eq!(DirError::IsNotDirectory.get_libc_code(), libc::ENOTDIR);
    assert_eq!(DirError::DirectoryNotEmpty.get_libc_code(), libc::ENOTEMPTY);
    assert_eq!(DirError::DirNodeErr(NodeError::TryAgain).get_libc_code(), libc::EAGAIN);
    assert_eq!(DirError::DirNodeErr(NodeError::IOError).get_libc_code(), libc::EIO);
}

#[test]
fn errors_are_wrapped_or_kept() {
    assert_eq!(NodeError::new(NodeError::TryAgain), NodeError::TryAgain);
    assert_eq!(
        FileError::new(NodeError::PermissionDenied),
        FileError::FileNodeErr(NodeError::PermissionDenied)
    );
    assert_eq!(FileError::new(FileError::NoSuchFile), FileError::NoSuchFile);
    assert_eq!(DirError::new(NodeError::ReadOnly), DirError::DirNodeErr(NodeError::ReadOnly));
    assert_eq!(DirError::new(DirError::IsNotDirectory), DirError::IsNotDirectory);

    assert_eq!(FileError::new(FileError::NoSuchFile).description(), "The file does not exist");
    assert_eq!(FileError::new(NodeError::PermissionDenied).description(),
        "The user does not have permission to execute the operation");
    assert_eq!(DirError::new(DirError::IsNotDirectory).description(),
        "The requested object is not a directory");
    assert_eq!(DirError::new(NodeError::ReadOnly).description(), "This is a ReadOnly file system");
    assert_eq!(
        NodeError::NotImplemented.description(),
        "The requested operation is not implemented"
    );

    let error = LibcError::new(5);
    assert_eq!(error.get_code(), 5);
    assert_eq!(error, LibcError::new(5));
}

#[test]
fn modes_hold_kind_and_permissions() {
    assert_eq!(mode_from_kind_and_perm(&FileType::Directory, 0o755), 0o040755);
    assert_eq!(mode_from_kind_and_perm(&FileType::RegularFile, 0o644), 0o100644);
    assert_eq!(mode_from_kind_and_perm(&FileType::Symlink, 0o777), 0o120777);
    assert_eq!(mode_from_kind_and_perm(&FileType::NamedPipe, 0), 0o010000);
    assert_eq!(mode_from_kind_and_perm(&FileType::CharDevice, 0), 0o020000);
    assert_eq!(mode_from_kind_and_perm(&FileType::BlockDevice, 0), 0o060000);
    assert_eq!(mode_from_kind_and_perm(&FileType::Socket, 0o7777), 0o147777);
}

#[test]
fn attributes_are_laid_out_for_the_kernel() {
    let attr = FileAttr {
        ino: 1,
        size: 2,
        blocks: 3,
        atime: Timespec { sec: 4, nsec: 5 },
        mtime: Timespec { sec: 6, nsec: 7 },
        ctime: Timespec { sec: 8, nsec: 9 },
        crtime: Timespec { sec: 10, nsec: 11 },
        kind: FileType::Directory,
        perm: 0o700,
        nlink: 12,
        uid: 13,
        gid: 14,
        rdev: 15,
        flags: 16,
    };
    let out = fuse_attr_from_attr(&attr);
    assert_eq!((out.ino, out.size, out.blocks), (1, 2, 3));
    assert_eq!((out.atime, out.atimensec), (4, 5));
    assert_eq!((out.mtime, out.mtimensec), (6, 7));
    assert_eq!((out.ctime, out.ctimensec), (8, 9));
    assert_eq!(out.mode, 0o040700);
    assert_eq!((out.nlink, out.uid, out.gid, out.rdev), (12, 13, 14, 15));
    assert_eq!(system_time_decompose(&Timespec { sec: -3, nsec: 999 }), (-3, 999));
}

#[test]
fn inode_numbers_start_at_one_and_never_repeat() {
    let mut generator = InoGenerator::new();
    assert_eq!(generator.peek(), 1);
    let mut seen = std::collections::BTreeSet::new();
    let mut last = 0;
    for _ in 0..1000 {
        let ino = generator.generate();
        assert!(ino >= 1);
        assert!(ino > last);
        assert!(seen.insert(ino));
        last = ino;
    }
    assert_eq!(last, 1000);
    assert_eq!(generator.peek(), 1001);
}

#[test]
fn a_request_tells_its_caller() {
    let req = Request::new(1, 2, 3, 4);
    assert_eq!(req.id(), 1);
    assert_eq!(req.uid(), 2);
    assert_eq!(req.gid(), 3);
    assert_eq!(req.pid(), 4);
}

type TestHandle = Handle<&'static str, Vec<u8>>;

#[test]
fn handles_are_equal_by_inode() {
    let file: TestHandle = Handle::new_file(5, b"content".to_vec());
    let dir: TestHandle = Handle::new_dir(5, "other object");
    let other: TestHandle = Handle::new_file(6, b"content".to_vec());
    assert!(file.get() == dir.get());
    assert!(file.get() != other.get());
    assert!(file.get() == file.clone().get());

    assert_eq!(file.get().get_ino(), 5);
    assert_eq!(file.get().get_kind(), FileType::RegularFile);
    assert_eq!(dir.get().get_kind(), FileType::Directory);
    match file.clone().get().dispatch_ref() {
        HandleDispatcher::RegularFile(content) => assert_eq!(content, b"content"),
        HandleDispatcher::Dir(_) => panic!("a file was made"),
    }
    match dir.get().dispatch_ref() {
        HandleDispatcher::Dir(object) => assert_eq!(*object, "other object"),
        HandleDispatcher::RegularFile(_) => panic!("a directory was made"),
    }
}

#[test]
fn the_registry_never_replaces_a_handle() {
    let mut registry: Registry<&'static str, Vec<u8>> = Registry::new();
    assert!(!registry.contains(1));
    assert!(registry.get(1).is_none());

    assert!(registry.insert(1, Handle::new_dir(1, "root")));
    assert!(registry.insert(2, Handle::new_file(2, vec![2])));
    assert!(registry.contains(1));

    // a second handle for the same inode is refused, the first stays
    assert!(!registry.insert(2, Handle::new_file(2, vec![9, 9])));
    match registry.get(2).unwrap().get().dispatch_ref() {
        HandleDispatcher::RegularFile(content) => assert_eq!(content, &vec![2]),
        HandleDispatcher::Dir(_) => panic!("inode 2 is a file"),
    }
    // a handle is kept under its own number only
    assert!(!registry.insert(3, Handle::new_file(4, vec![])));
    assert!(!registry.contains(3));
    assert!(!registry.contains(4));

    // two handles from the registry are equal exactly when their inodes are
    for a in [1u64, 2] {
        for b in [1u64, 2] {
            let left = registry.get(a).unwrap();
            let right = registry.get(b).unwrap();
            assert_eq!(left.get() == right.get(), a == b);
            assert_eq!(left.get().get_ino() == right.get().get_ino(), a == b);
        }
    }

    assert_eq!(registry.remove(2).unwrap().get().get_ino(), 2);
    assert!(registry.remove(2).is_none());
    assert!(!registry.contains(2));
    assert!(registry.contains(1));
    assert!(registry.insert(2, Handle::new_file(2, vec![7])));
}

#[test]
fn the_engine_registers_nodes_under_fresh_numbers() {
    let mut engine: Engine<&'static str, Vec<u8>> = Engine::new("root");
    assert_eq!(engine.get(1).unwrap().get().get_kind(), FileType::Directory);
    assert!(engine.get(2).is_none());
    assert_eq!(engine.get_ino_generator().peek(), 2);

    let file = engine.add_file(vec![1, 2, 3]).unwrap();
    assert_eq!(file.get().get_ino(), 2);
    assert_eq!(file.get().get_kind(), FileType::RegularFile);
    let dir = engine.add_directory("sub").unwrap();
    assert_eq!(dir.get().get_ino(), 3);
    assert_eq!(dir.get().get_kind(), FileType::Directory);

    assert!(engine.get(2).unwrap().get() == file.get());
    assert!(engine.get(3).unwrap().get() == dir.get());
    assert!(engine.get_registry().contains(3));
    assert!(!engine.get_registry().contains(4));
    assert_eq!(engine.get_ino_generator().peek(), 4);
}

#[test]
fn an_entry_starts_with_the_defaults() {
    let handle: TestHandle = Handle::new_file(9, vec![]);
    let epoch = Timespec { sec: 0, nsec: 0 };
    let mut entry = DirectoryEntry::new("hello.txt".to_string(), handle.clone());
    assert_eq!(entry.get_name(), "hello.txt");
    assert_eq!(entry.get_ino(), 9);
    assert_eq!(entry.get_kind(), FileType::RegularFile);
    assert_eq!(entry.get_size(), 0);
    assert_eq!(entry.get_atime(), epoch);
    assert_eq!(entry.get_mtime(), epoch);
    assert_eq!(entry.get_ctime(), epoch);
    assert_eq!(entry.get_crtime(), epoch);
    assert_eq!(entry.get_ttl(), epoch);
    assert_eq!(entry.get_perm(), 0o744);
    assert_eq!(entry.get_nlink(), 1);
    assert_eq!(entry.get_blocks(), 1);
    assert_eq!(entry.get_uid(), 0);
    assert_eq!(entry.get_gid(), 0);
    assert_eq!(entry.get_rdev(), 0);
    assert_eq!(entry.get_flags(), 0);
    assert_eq!(entry.to_reply(), (9, FileType::RegularFile, "hello.txt".to_string()));

    entry.size(12);
    entry.atime(Timespec { sec: 1, nsec: 2 });
    entry.mtime(Timespec { sec: 3, nsec: 4 });
    entry.ctime(Timespec { sec: 5, nsec: 6 });
    entry.crtime(Timespec { sec: 7, nsec: 8 });
    entry.ttl(Timespec { sec: 20, nsec: 0 });
    entry.perm(0o600);
    entry.nlink(2);
    entry.uid(1000);
    entry.gid(100);
    entry.rdev(3);
    entry.flags(4);
    entry.blocks(5);

    // a copy keeps what was set
    let copy: NodeEntry = entry.clone();
    let attr = copy.to_attr();
    assert_eq!(
        attr,
        FileAttr {
            ino: 9,
            size: 12,
            blocks: 5,
            atime: Timespec { sec: 1, nsec: 2 },
            mtime: Timespec { sec: 3, nsec: 4 },
            ctime: Timespec { sec: 5, nsec: 6 },
            crtime: Timespec { sec: 7, nsec: 8 },
            kind: FileType::RegularFile,
            perm: 0o600,
            nlink: 2,
            uid: 1000,
            gid: 100,
            rdev: 3,
            flags: 4,
        }
    );
    assert_eq!(copy.get_ttl(), Timespec { sec: 20, nsec: 0 });

    let dir: TestHandle = Handle::new_dir(1, "root");
    assert_eq!(DirectoryEntry::new(".".to_string(), dir).get_kind(), FileType::Directory);
}
