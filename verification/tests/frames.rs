use bytes::BytesMut;

use strato::abi::{
    fuse_access_in, fuse_attr_out, fuse_bmap_in, fuse_bmap_out, fuse_entry_out, fuse_flush_in,
    fuse_forget_in, fuse_fsync_in, fuse_getxattr_in, fuse_in_header, fuse_init_in, fuse_link_in,
    fuse_lk_in, fuse_mknod_in, fuse_open_in, fuse_open_out, fuse_out_header, fuse_read_in,
    fuse_release_in, fuse_rename_in, fuse_setattr_in, fuse_setxattr_in, fuse_write_in, Wire,
};
use strato::decoder::{
    name_length, DecodeError, DecodeErrorKind, FuseRequestDecoder,
};
use strato::encoder::{EncodeError, FuseResponseEncoder};
use strato::file::{FileAttr, FileType};
use strato::opcode::fuse_opcode;
use strato::request::{FuseRequest, FuseRequestBody};
use strato::response::{
    attr, bmap, create, entry, lock, open, statfs, DirReply, FuseResponse, FuseResponseBody,
};
use strato::wire::{get_i32, get_i64, get_u32, get_u64, put_i32, put_i64, put_u32, put_u64};
use time::Timespec;

fn header(opcode: u32) -> fuse_in_header {
    fuse_in_header {
        len: 0,
        opcode,
        unique: 0x0102_0304_0506_0708,
        nodeid: 42,
        uid: 1000,
        gid: 100,
        pid: 4711,
        padding: 0,
    }
}

fn image<T: Wire>(value: &T) -> Vec<u8> {
    let mut bytes = Vec::new();
    value.put(&mut bytes);
    bytes
}

fn name(text: &str) -> Vec<u8> {
    let mut bytes = text.as_bytes().to_vec();
    bytes.push(0);
    bytes
}

fn decode(bytes: &[u8]) -> (Result<Option<FuseRequest>, DecodeError>, Vec<u8>) {
    let mut buf = BytesMut::from(bytes.to_vec());
    let result = FuseRequestDecoder::new().decode(&mut buf);
    (result, buf.to_vec())
}

fn round_trip(op: fuse_opcode, body: FuseRequestBody, body_bytes: Vec<u8>) {
    let head = header(op.number());
    let mut frame = image(&head);
    frame.extend_from_slice(&body_bytes);
    let request = FuseRequest::new(head, body);
    // the frame of the request is the header and the body as laid out here
    let mut encoded = Vec::new();
    request.put(&mut encoded);
    assert_eq!(encoded, frame);
    // and decoding the frame gives the request again
    let (result, rest) = decode(&frame);
    assert_eq!(result, Ok(Some(request)));
    assert!(rest.is_empty());
    // what was decoded names a known operation, and not the interrupt
    let decoded = fuse_opcode::from_u32(result.unwrap().unwrap().get_header().opcode);
    assert_eq!(decoded, Some(op));
    assert_ne!(decoded, Some(fuse_opcode::FUSE_INTERRUPT));
}

#[test]
fn integers_are_little_endian() {
    let mut out = vec![0xaau8];
    put_u32(&mut out, 0x0403_0201);
    put_u64(&mut out, 0x0c0b_0a09_0807_0605);
    put_i32(&mut out, -2);
    put_i64(&mut out, -1);
    put_i64(&mut out, i64::MIN);
    put_i32(&mut out, i32::MAX);
    assert_eq!(
        out,
        vec![
            0xaa, 1, 2, 3, 4, 5, 6, 7, 8, 9, 10, 11, 12, 0xfe, 0xff, 0xff, 0xff, 0xff, 0xff, 0xff,
            0xff, 0xff, 0xff, 0xff, 0xff, 0, 0, 0, 0, 0, 0, 0, 0x80, 0xff, 0xff, 0xff, 0x7f
        ]
    );
    assert_eq!(get_u32(&out, 1), 0x0403_0201);
    assert_eq!(get_u64(&out, 5), 0x0c0b_0a09_0807_0605);
    assert_eq!(get_i32(&out, 13), -2);
    assert_eq!(get_i64(&out, 17), -1);
    assert_eq!(get_i64(&out, 25), i64::MIN);
    assert_eq!(get_i32(&out, 33), i32::MAX);
    assert_eq!(get_u32(&out, 13), 0xffff_fffe);
}

#[test]
fn structures_are_read_back() {
    let value = fuse_setattr_in {
        valid: 1,
        padding: 2,
        fh: 3,
        size: 4,
        unused1: 5,
        atime: -6,
        mtime: 7,
        unused2: 8,
        atimensec: -9,
        mtimensec: 10,
        unused3: 11,
        mode: 12,
        unused4: 13,
        uid: 14,
        gid: 15,
        unused5: 16,
    };
    let mut bytes = vec![9u8, 9, 9];
    value.put(&mut bytes);
    assert_eq!(bytes.len(), 3 + fuse_setattr_in::size());
    assert_eq!(fuse_setattr_in::size(), 88);
    bytes.push(1);
    assert_eq!(fuse_setattr_in::get(&bytes, 3), value);
    assert_eq!(fuse_in_header::size(), 40);
    assert_eq!(fuse_out_header::size(), 16);
    assert_eq!(fuse_entry_out::size(), 120);
    assert_eq!(fuse_attr_out::size(), 96);
}

#[test]
fn opcodes_are_found_by_number() {
    assert_eq!(fuse_opcode::from_u32(1), Some(fuse_opcode::FUSE_LOOKUP));
    assert_eq!(fuse_opcode::from_u32(38), Some(fuse_opcode::FUSE_DESTROY));
    assert_eq!(fuse_opcode::from_u32(0), None);
    assert_eq!(fuse_opcode::from_u32(7), None);
    assert_eq!(fuse_opcode::from_u32(19), None);
    assert_eq!(fuse_opcode::from_u32(39), None);
    for n in 0..100u32 {
        if let Some(op) = fuse_opcode::from_u32(n) {
            assert_eq!(op.number(), n);
        }
    }
}

#[test]
fn every_kind_of_request_is_read_back() {
    round_trip(fuse_opcode::FUSE_DESTROY, FuseRequestBody::Destroy(), vec![]);
    round_trip(fuse_opcode::FUSE_GETATTR, FuseRequestBody::GetAttr(), vec![]);
    round_trip(fuse_opcode::FUSE_READLINK, FuseRequestBody::ReadLink(), vec![]);
    round_trip(fuse_opcode::FUSE_STATFS, FuseRequestBody::StatFS(), vec![]);

    let init = fuse_init_in { major: 7, minor: 8, max_readahead: 65536, flags: 3 };
    round_trip(fuse_opcode::FUSE_INIT, FuseRequestBody::Init(init), image(&init));
    let read = fuse_read_in { fh: 5, offset: 4096, size: 512, padding: 0 };
    round_trip(fuse_opcode::FUSE_READ, FuseRequestBody::Read(read), image(&read));
    round_trip(fuse_opcode::FUSE_READDIR, FuseRequestBody::ReadDir(read), image(&read));
    let lk = fuse_lk_in {
        fh: 1,
        owner: 2,
        lk: strato::abi::fuse_file_lock { start: 3, end: 4, typ: 5, pid: 6 },
    };
    round_trip(fuse_opcode::FUSE_GETLK, FuseRequestBody::GetLock(lk), image(&lk));
    round_trip(fuse_opcode::FUSE_SETLK, FuseRequestBody::SetLock(lk), image(&lk));
    round_trip(fuse_opcode::FUSE_SETLKW, FuseRequestBody::SetLock(lk), image(&lk));

    let forget = fuse_forget_in { nlookup: 3 };
    round_trip(fuse_opcode::FUSE_FORGET, FuseRequestBody::Forget(forget), image(&forget));
    let setattr = fuse_setattr_in {
        valid: 1,
        padding: 0,
        fh: 2,
        size: 3,
        unused1: 0,
        atime: 4,
        mtime: -5,
        unused2: 0,
        atimensec: 6,
        mtimensec: 7,
        unused3: 0,
        mode: 0o644,
        unused4: 0,
        uid: 8,
        gid: 9,
        unused5: 0,
    };
    round_trip(fuse_opcode::FUSE_SETATTR, FuseRequestBody::SetAttr(setattr), image(&setattr));
    let mknod = fuse_mknod_in { mode: 0o100644, rdev: 0 };
    round_trip(fuse_opcode::FUSE_MKNOD, FuseRequestBody::MkNod(mknod), image(&mknod));
    let open_in = fuse_open_in { flags: 2, mode: 0 };
    round_trip(fuse_opcode::FUSE_OPEN, FuseRequestBody::Open(open_in), image(&open_in));
    round_trip(fuse_opcode::FUSE_OPENDIR, FuseRequestBody::OpenDir(open_in), image(&open_in));
    round_trip(fuse_opcode::FUSE_CREATE, FuseRequestBody::Create(open_in), image(&open_in));
    let flush = fuse_flush_in { fh: 1, unused: 0, padding: 0, lock_owner: 2 };
    round_trip(fuse_opcode::FUSE_FLUSH, FuseRequestBody::Flush(flush), image(&flush));
    let release = fuse_release_in { fh: 1, flags: 2, release_flags: 3, lock_owner: 4 };
    round_trip(fuse_opcode::FUSE_RELEASE, FuseRequestBody::Release(release), image(&release));
    round_trip(
        fuse_opcode::FUSE_RELEASEDIR,
        FuseRequestBody::ReleaseDir(release),
        image(&release),
    );
    let fsync = fuse_fsync_in { fh: 1, fsync_flags: 1, padding: 0 };
    round_trip(fuse_opcode::FUSE_FSYNC, FuseRequestBody::FSync(fsync), image(&fsync));
    round_trip(fuse_opcode::FUSE_FSYNCDIR, FuseRequestBody::FSyncDir(fsync), image(&fsync));
    let getxattr = fuse_getxattr_in { size: 64, padding: 0 };
    round_trip(fuse_opcode::FUSE_GETXATTR, FuseRequestBody::GetXAttr(getxattr), image(&getxattr));
    round_trip(
        fuse_opcode::FUSE_LISTXATTR,
        FuseRequestBody::ListXAttr(getxattr),
        image(&getxattr),
    );
    let access = fuse_access_in { mask: 4, padding: 0 };
    round_trip(fuse_opcode::FUSE_ACCESS, FuseRequestBody::Access(access), image(&access));
    let bmap_in = fuse_bmap_in { block: 9, blocksize: 512, padding: 0 };
    round_trip(fuse_opcode::FUSE_BMAP, FuseRequestBody::Bmap(bmap_in), image(&bmap_in));

    round_trip(
        fuse_opcode::FUSE_LOOKUP,
        FuseRequestBody::Lookup(b"hello.txt".to_vec()),
        name("hello.txt"),
    );
    round_trip(fuse_opcode::FUSE_MKDIR, FuseRequestBody::MkDir(b"d".to_vec()), name("d"));
    round_trip(fuse_opcode::FUSE_UNLINK, FuseRequestBody::Unlink(vec![]), name(""));
    round_trip(fuse_opcode::FUSE_RMDIR, FuseRequestBody::RmDir(b"d".to_vec()), name("d"));
    round_trip(
        fuse_opcode::FUSE_REMOVEXATTR,
        FuseRequestBody::RemoveXAttr(b"user.a".to_vec()),
        name("user.a"),
    );

    let mut two = name("link");
    two.extend(name("/target/path"));
    round_trip(
        fuse_opcode::FUSE_SYMLINK,
        FuseRequestBody::Symlink(b"link".to_vec(), b"/target/path".to_vec()),
        two,
    );

    let rename = fuse_rename_in { newdir: 9 };
    let mut bytes = image(&rename);
    bytes.extend(name("old"));
    bytes.extend(name("new"));
    round_trip(
        fuse_opcode::FUSE_RENAME,
        FuseRequestBody::Rename(rename, b"old".to_vec(), b"new".to_vec()),
        bytes,
    );

    let link = fuse_link_in { oldnodeid: 17 };
    let mut bytes = image(&link);
    bytes.extend(name("again"));
    round_trip(fuse_opcode::FUSE_LINK, FuseRequestBody::Link(link, b"again".to_vec()), bytes);

    let write_in = fuse_write_in { fh: 1, offset: 2, size: 5, write_flags: 0 };
    let mut bytes = image(&write_in);
    bytes.extend_from_slice(b"a\0b\0c");
    round_trip(
        fuse_opcode::FUSE_WRITE,
        FuseRequestBody::Write(write_in, b"a\0b\0c".to_vec()),
        bytes,
    );

    let setxattr = fuse_setxattr_in { size: 3, flags: 0 };
    let mut bytes = image(&setxattr);
    bytes.extend_from_slice(b"user.a\0abc");
    round_trip(
        fuse_opcode::FUSE_SETXATTR,
        FuseRequestBody::SetXAttr(setxattr, b"user.a\0abc".to_vec()),
        bytes,
    );
}

#[test]
fn what_follows_a_request_stays_in_the_buffer() {
    let mut frame = image(&header(fuse_opcode::FUSE_LOOKUP.number()));
    frame.extend(name("a"));
    frame.extend_from_slice(b"next");
    let (result, rest) = decode(&frame);
    assert_eq!(
        result,
        Ok(Some(FuseRequest::new(
            header(fuse_opcode::FUSE_LOOKUP.number()),
            FuseRequestBody::Lookup(b"a".to_vec())
        )))
    );
    assert_eq!(rest, b"next".to_vec());
}

#[test]
fn short_and_broken_frames_are_refused() {
    let full = image(&header(fuse_opcode::FUSE_INIT.number()));

    let (result, rest) = decode(&full[..39]);
    assert_eq!(result, Err(DecodeError::HeaderTooShort));
    assert_eq!(rest, full[..39].to_vec());
    let (result, _) = decode(&[]);
    assert_eq!(result, Err(DecodeError::HeaderTooShort));

    // the body of an init has sixteen bytes
    let mut frame = full.clone();
    frame.extend_from_slice(&[0u8; 15]);
    let (result, rest) = decode(&frame);
    assert_eq!(result, Err(DecodeError::BodyTooShort));
    assert_eq!(rest, vec![0u8; 15]);

    let mut frame = image(&header(fuse_opcode::FUSE_LOOKUP.number()));
    frame.extend_from_slice(b"never ends");
    let (result, rest) = decode(&frame);
    assert_eq!(result, Err(DecodeError::MissingTerminator));
    assert_eq!(rest, b"never ends".to_vec());

    // the second name of a rename is missing: the first is consumed
    let mut frame = image(&header(fuse_opcode::FUSE_RENAME.number()));
    frame.extend(image(&fuse_rename_in { newdir: 1 }));
    frame.extend(name("old"));
    frame.extend_from_slice(b"new");
    let (result, rest) = decode(&frame);
    assert_eq!(result, Err(DecodeError::MissingTerminator));
    assert_eq!(rest, b"new".to_vec());

    let (result, rest) = decode(&image(&header(fuse_opcode::FUSE_INTERRUPT.number())));
    assert_eq!(result, Err(DecodeError::Interrupt));
    assert!(rest.is_empty());

    assert_eq!(DecodeError::HeaderTooShort.kind(), DecodeErrorKind::InvalidInput);
    assert_eq!(DecodeError::UnknownOpcode(7).kind(), DecodeErrorKind::InvalidInput);
    assert_eq!(DecodeError::BodyTooShort.kind(), DecodeErrorKind::InvalidInput);
    assert_eq!(DecodeError::MissingTerminator.kind(), DecodeErrorKind::InvalidInput);
    assert_eq!(DecodeError::Interrupt.kind(), DecodeErrorKind::Other);
    assert_eq!(DecodeError::Interrupt.message(), "Interrupting is not implemented");
    assert_eq!(DecodeError::UnknownOpcode(7).message(), "Unknown FUSE opcode");
}

#[test]
fn an_unknown_opcode_is_skipped_and_the_next_request_served() {
    let mut buf = BytesMut::new();
    let mut decoder = FuseRequestDecoder::new();

    for opcode in [0u32, 7, 19, 39, 61, 62, 63, 4096] {
        buf.extend_from_slice(&image(&header(opcode)));
        assert_eq!(decoder.decode(&mut buf), Err(DecodeError::UnknownOpcode(opcode)));
        // the header of the unknown request is gone
        assert!(buf.is_empty());

        buf.extend_from_slice(&image(&header(fuse_opcode::FUSE_GETATTR.number())));
        let req = decoder.decode(&mut buf).unwrap().unwrap();
        assert_eq!(req.get_header().opcode, 3);
        assert_eq!(req.get_body(), &FuseRequestBody::GetAttr());
    }
}

#[test]
fn names_end_at_the_first_zero() {
    assert_eq!(name_length(b"abc\0def\0"), 3);
    assert_eq!(name_length(b"\0"), 0);
    assert_eq!(name_length(b""), 0);
    assert_eq!(name_length(b"abc"), 3);
}

fn file_attr() -> FileAttr {
    FileAttr {
        ino: 7,
        size: 12,
        blocks: 1,
        atime: Timespec { sec: 10, nsec: 11 },
        mtime: Timespec { sec: 20, nsec: 21 },
        ctime: Timespec { sec: 30, nsec: 31 },
        crtime: Timespec { sec: 40, nsec: 41 },
        kind: FileType::RegularFile,
        perm: 0o644,
        nlink: 1,
        uid: 1000,
        gid: 100,
        rdev: 0,
        flags: 0,
    }
}

fn encode(response: FuseResponse) -> (Result<(), EncodeError>, Vec<u8>) {
    let mut buf = BytesMut::new();
    buf.extend_from_slice(b"kept");
    let result = FuseResponseEncoder::new().encode(response, &mut buf);
    let all = buf.to_vec();
    assert_eq!(&all[..4], b"kept");
    (result, all[4..].to_vec())
}

fn out_header(error: i32) -> fuse_out_header {
    fuse_out_header { len: 0, error, unique: 99 }
}

fn check_frame(body: FuseResponseBody, expected_body: Vec<u8>) {
    let (result, frame) = encode(FuseResponse::new(out_header(0), body));
    assert_eq!(result, Ok(()));
    assert_eq!(frame.len(), 16 + expected_body.len());
    let head = fuse_out_header::get(&frame, 0);
    // the header says how long the frame is
    assert_eq!(head.len as usize, frame.len());
    assert_eq!(head.error, 0);
    assert_eq!(head.unique, 99);
    assert_eq!(frame[16..].to_vec(), expected_body);
}

#[test]
fn every_reply_says_its_length() {
    let ttl = Timespec { sec: 1, nsec: 2 };
    let entry_out = entry(&ttl, &file_attr(), 0);
    let attr_out = attr(&ttl, &file_attr());
    let open_out = open(3, 4);
    let (created, opened) = create(&ttl, &file_attr(), 0, 5, 6);

    for body in [
        FuseResponseBody::Init(),
        FuseResponseBody::Destroy(),
        FuseResponseBody::Forget(),
        FuseResponseBody::SetAttr(),
        FuseResponseBody::Unlink(),
        FuseResponseBody::RmDir(),
        FuseResponseBody::Rename(),
        FuseResponseBody::Flush(),
        FuseResponseBody::Release(),
        FuseResponseBody::FSync(),
        FuseResponseBody::ReleaseDir(),
        FuseResponseBody::FSyncDir(),
        FuseResponseBody::Access(),
        FuseResponseBody::SetLock(),
        FuseResponseBody::SetXAttr(),
        FuseResponseBody::RemoveXAttr(),
    ] {
        check_frame(body, vec![]);
    }
    check_frame(FuseResponseBody::Lookup(entry_out), image(&entry_out));
    check_frame(FuseResponseBody::MkNod(entry_out), image(&entry_out));
    check_frame(FuseResponseBody::MkDir(entry_out), image(&entry_out));
    check_frame(FuseResponseBody::Symlink(entry_out), image(&entry_out));
    check_frame(FuseResponseBody::Link(entry_out), image(&entry_out));
    check_frame(FuseResponseBody::Open(open_out), image(&open_out));
    check_frame(FuseResponseBody::OpenDir(open_out), image(&open_out));
    check_frame(FuseResponseBody::GetAttr(attr_out), image(&attr_out));
    check_frame(FuseResponseBody::SetAttrOut(attr_out), image(&attr_out));
    check_frame(FuseResponseBody::ReadLink(b"/target".to_vec()), b"/target".to_vec());
    check_frame(FuseResponseBody::Read(vec![]), vec![]);
    check_frame(FuseResponseBody::GetXAttr(vec![1, 2, 3]), vec![1, 2, 3]);
    check_frame(FuseResponseBody::ListXAttr(b"user.a\0".to_vec()), b"user.a\0".to_vec());

    let mut both = image(&created);
    both.extend(image(&opened));
    assert_eq!(both.len(), 136);
    check_frame(FuseResponseBody::Create(created, opened), both);

    let stat = statfs(1, 2, 3, 4, 5, 6, 7, 8);
    check_frame(FuseResponseBody::StatFS(stat), image(&stat));
    let lk = lock(1, 2, 3, 4);
    check_frame(FuseResponseBody::GetLock(lk), image(&lk));
    let block = bmap(77);
    check_frame(FuseResponseBody::Bmap(block), image(&block));
    let written = strato::response::write(512);
    check_frame(FuseResponseBody::Write(written), image(&written));

    let mut listing = DirReply::new();
    listing.entry(1, 0, FileType::Directory, b".");
    listing.entry(2, 1, FileType::RegularFile, b"hello.txt");
    let packed = listing.clone().to_vec();
    assert_eq!(packed.len(), 32 + 40);
    check_frame(FuseResponseBody::ReadDir(listing), packed);
}

#[test]
fn replies_are_built_from_their_parts() {
    let ttl = Timespec { sec: 1, nsec: 2 };
    let entry_out = entry(&ttl, &file_attr(), 9);
    assert_eq!(entry_out.nodeid, 7);
    assert_eq!(entry_out.generation, 9);
    assert_eq!(entry_out.entry_valid, 1);
    assert_eq!(entry_out.attr_valid, 1);
    assert_eq!(entry_out.entry_valid_nsec, 2);
    assert_eq!(entry_out.attr_valid_nsec, 2);
    assert_eq!(entry_out.attr.ino, 7);
    assert_eq!(entry_out.attr.size, 12);
    assert_eq!(entry_out.attr.atime, 10);
    assert_eq!(entry_out.attr.atimensec, 11);
    assert_eq!(entry_out.attr.mtime, 20);
    assert_eq!(entry_out.attr.ctimensec, 31);
    assert_eq!(entry_out.attr.mode, 0o100644);
    assert_eq!(entry_out.attr.uid, 1000);

    let attr_out = attr(&ttl, &file_attr());
    assert_eq!(attr_out.attr_valid, 1);
    assert_eq!(attr_out.attr_valid_nsec, 2);
    assert_eq!(attr_out.dummy, 0);
    assert_eq!(attr_out.attr, entry_out.attr);

    assert_eq!(open(3, 4), fuse_open_out { fh: 3, open_flags: 4, padding: 0 });
    assert_eq!(strato::response::write(5).size, 5);
    assert_eq!(bmap(6), fuse_bmap_out { block: 6 });
    let stat = statfs(1, 2, 3, 4, 5, 6, 7, 8).st;
    assert_eq!(
        (stat.blocks, stat.bfree, stat.bavail, stat.files, stat.ffree),
        (1, 2, 3, 4, 5)
    );
    assert_eq!((stat.bsize, stat.namelen, stat.frsize, stat.padding, stat.spare5), (6, 7, 8, 0, 0));
    let lk = lock(1, 2, 3, 4).lk;
    assert_eq!((lk.start, lk.end, lk.typ, lk.pid), (1, 2, 3, 4));
    let (created, opened) = create(&ttl, &file_attr(), 9, 3, 4);
    assert_eq!(created, entry_out);
    assert_eq!(opened, open(3, 4));
}

#[test]
fn an_error_reply_is_its_header_with_the_error_negated() {
    let body = FuseResponseBody::Read(b"never sent".to_vec());
    let (result, frame) = encode(FuseResponse::new(out_header(2), body));
    assert_eq!(result, Ok(()));
    assert_eq!(frame.len(), 16);
    let head = fuse_out_header::get(&frame, 0);
    assert_eq!(head, fuse_out_header { len: 16, error: -2, unique: 99 });

    // an error is written whatever the body is
    let (result, frame) = encode(FuseResponse::new(out_header(38), FuseResponseBody::Interrupt()));
    assert_eq!(result, Ok(()));
    assert_eq!(fuse_out_header::get(&frame, 0).error, -38);

    let (result, frame) = encode(FuseResponse::new(out_header(-5), FuseResponseBody::Init()));
    assert_eq!(result, Ok(()));
    assert_eq!(fuse_out_header::get(&frame, 0).error, 5);

    let (result, frame) = encode(FuseResponse::new(out_header(i32::MIN), FuseResponseBody::Init()));
    assert_eq!(result, Ok(()));
    assert_eq!(fuse_out_header::get(&frame, 0).error, i32::MIN);
}

#[test]
fn replies_that_are_not_served_are_refused() {
    let (result, frame) = encode(FuseResponse::new(out_header(0), FuseResponseBody::Interrupt()));
    assert_eq!(result, Err(EncodeError::Unimplemented));
    assert!(frame.is_empty());
    let (result, frame) = encode(FuseResponse::new(out_header(0), FuseResponseBody::GetXTimes()));
    assert_eq!(result, Err(EncodeError::Unimplemented));
    assert!(frame.is_empty());
    assert_eq!(EncodeError::Unimplemented.message(), "This Response is unimplemented");
}

#[test]
fn directory_entries_are_padded_to_eight_bytes() {
    for len in 0..20usize {
        let name = vec![b'x'; len];
        let mut listing = DirReply::new();
        listing.entry(3, -1, FileType::Symlink, &name);
        let packed = listing.to_vec();
        assert_eq!(packed.len(), (24 + len + 7) & !7);
        assert_eq!(get_u64(&packed, 0), 3);
        assert_eq!(get_i64(&packed, 8), -1);
        assert_eq!(get_u32(&packed, 16) as usize, len);
        assert_eq!(get_u32(&packed, 20), 10);
        assert_eq!(packed[24..24 + len].to_vec(), name);
        assert!(packed[24 + len..].iter().all(|byte| *byte == 0));
    }
    let kinds = [
        (FileType::NamedPipe, 1),
        (FileType::CharDevice, 2),
        (FileType::Directory, 4),
        (FileType::BlockDevice, 6),
        (FileType::RegularFile, 8),
        (FileType::Symlink, 10),
        (FileType::Socket, 12),
    ];
    for (kind, number) in kinds {
        let mut listing = DirReply::new();
        listing.entry(1, 0, kind, b"n");
        assert_eq!(get_u32(listing.as_slice(), 20), number);
    }
}
