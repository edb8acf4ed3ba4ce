use bytes::BytesMut;
use strato::abi::{fuse_in_header, fuse_out_header, Wire};
use strato::controller::Request;
use strato::driver::{
    getattr, getattr_reply, getattr_response, lookup, lookup_reply, lookup_response, pack_listing,
    read, read_reply, read_response, readdir, readdir_items, readdir_reply, readdir_response,
    resolve_directory, resolve_file, resolve_node, seed_entry, DirItem,
};
use strato::encoder::FuseResponseEncoder;
use strato::engine::Engine;
use strato::errno::{EISDIR, ENOENT, ENOTDIR, EPERM};
use strato::error::{DirError, FileError, NodeError};
use strato::file::FileType;
use strato::handler::{Handle, HandleDispatcher};
use strato::link::NodeEntry;
use strato::node::{Directory, File, Node};
use strato::response::{attr, entry, DirReply, FuseResponse, FuseResponseBody};
use time::Timespec;

type Reply = Result<Vec<u8>, FileError>;
type TestHandle = Handle<StaticDir, StaticFile>;

struct StaticDir {
    handle: Option<TestHandle>,
    links: Vec<NodeEntry>,
}

impl StaticDir {
    fn new() -> Self {
        StaticDir { handle: None, links: Vec::new() }
    }

    fn own(&self, name: &str) -> NodeEntry {
        let mut entry = NodeEntry::new(name.to_string(), TestHandle::new_dir(1, StaticDir::new()));
        entry.size(0);
        entry
    }
}

impl Node<()> for StaticDir {
    fn read_attributes(
        &mut self,
        _req: Request,
        mut entry: NodeEntry,
    ) -> Result<NodeEntry, NodeError> {
        entry.mtime(Timespec { sec: 100, nsec: 7 });
        entry.ttl(Timespec { sec: 20, nsec: 0 });
        Ok(entry)
    }
}

impl Directory<()> for StaticDir {
    fn lookup(&mut self, _req: Request, name: String) -> Result<NodeEntry, NodeError> {
        if name == "." || name == ".." {
            return Ok(self.own(&name));
        }
        for x in self.links.iter() {
            if x.get_name() == name {
                return Ok(x.clone());
            }
        }
        Err(NodeError::new(NodeError::NoSuchEntry))
    }

    fn readdir(&mut self, _req: Request) -> Result<Vec<NodeEntry>, DirError> {
        let mut vec = vec![self.own("."), self.own("..")];
        vec.append(&mut self.links.clone());
        Ok(vec)
    }
}

struct StaticFile {
    text: String,
}

impl Node<()> for StaticFile {
    fn read_attributes(
        &mut self,
        _req: Request,
        mut entry: NodeEntry,
    ) -> Result<NodeEntry, NodeError> {
        entry.size(self.text.len() as u64);
        Ok(entry)
    }
}

impl File<(), Reply> for StaticFile {
    fn read(&mut self, _req: Request) -> Reply {
        Ok(self.text.clone().into_bytes())
    }
}

struct Silent;

impl Node<()> for Silent {}

impl Directory<()> for Silent {}

impl File<(), Reply> for Silent {}

fn request() -> Request {
    Request::new(77, 1000, 1000, 4242)
}

fn names(items: &Vec<DirItem>) -> Vec<String> {
    items.iter().map(|item| item.name.clone()).collect()
}

#[test]
fn hello_world_is_listed_and_read() {
    let mut engine: Engine<StaticDir, StaticFile> = Engine::new(StaticDir::new());
    let hello = engine.add_file(StaticFile { text: "Hello World\n".to_string() }).unwrap();
    assert_eq!(hello.get().get_ino(), 2);

    let mut root = StaticDir::new();
    root.links.push(NodeEntry::new("hello.txt".to_string(), hello.clone()));

    let items = readdir(&mut root, request(), 0).unwrap();
    assert_eq!(names(&items), vec![".", "..", "hello.txt"]);
    assert_eq!(items[2].ino, 2);
    assert_eq!(items[2].kind, FileType::RegularFile);
    assert_eq!(items[0].kind, FileType::Directory);
    assert_eq!(items[0].offset, 0);
    assert_eq!(items[1].offset, 1);
    assert_eq!(items[2].offset, 2);

    let found = lookup(&mut root, request(), "hello.txt".to_string()).unwrap();
    assert_eq!(found.attr.ino, 2);
    assert_eq!(found.generation, 0);

    let mut file = StaticFile { text: "Hello World\n".to_string() };
    let answer: Reply = read(&mut file, request());
    assert_eq!(read_reply(answer, 0, 4096), Ok("Hello World\n".to_string().into_bytes()));
}

#[test]
fn two_files_are_listed_in_insertion_order() {
    let mut engine: Engine<StaticDir, StaticFile> = Engine::new(StaticDir::new());
    let first = engine.add_file(StaticFile { text: "Hello World\n".to_string() }).unwrap();
    let second = engine.add_file(StaticFile { text: "Goodbye World\n".to_string() }).unwrap();
    let mut root = StaticDir::new();
    root.links.push(NodeEntry::new("hello.txt".to_string(), first.clone()));
    root.links.push(NodeEntry::new("goodbye.txt".to_string(), second.clone()));

    let items = readdir(&mut root, request(), 0).unwrap();
    assert_eq!(names(&items), vec![".", "..", "hello.txt", "goodbye.txt"]);
    assert_eq!(items[2].ino, first.get().get_ino());
    assert_eq!(items[3].ino, second.get().get_ino());

    for (handle, text) in [(first, "Hello World\n"), (second, "Goodbye World\n")] {
        let found = engine.get(handle.get().get_ino());
        match resolve_file(&found) {
            Ok(file) => assert_eq!(file.text, text),
            Err(errno) => panic!("no file: {}", errno),
        }
    }
}

#[test]
fn missing_and_mismatched_nodes_are_refused() {
    let mut engine: Engine<StaticDir, StaticFile> = Engine::new(StaticDir::new());
    let file = engine.add_file(StaticFile { text: String::new() }).unwrap();

    let mut root = StaticDir::new();
    assert_eq!(lookup(&mut root, request(), "nothing".to_string()), Err(ENOENT));

    // a read on a directory
    assert_eq!(resolve_file(&engine.get(1)).err(), Some(EISDIR));
    // a readdir on a file
    assert_eq!(resolve_directory(&engine.get(file.get().get_ino())).err(), Some(ENOTDIR));
    // an inode that was never handed out
    assert_eq!(resolve_directory(&engine.get(99)).err(), Some(ENOENT));
    assert_eq!(resolve_file(&engine.get(99)).err(), Some(ENOENT));
    assert_eq!(resolve_node(&engine.get(99)).err(), Some(ENOENT));

    assert!(resolve_directory(&engine.get(1)).is_ok());
    assert!(resolve_file(&engine.get(2)).is_ok());
    match resolve_node(&engine.get(2)) {
        Ok((HandleDispatcher::RegularFile(_), seed)) => {
            assert_eq!(seed.get_ino(), 2);
            assert_eq!(seed.get_kind(), FileType::RegularFile);
            assert_eq!(seed.get_name(), "");
        }
        _ => panic!("inode 2 is a regular file"),
    }
}

#[test]
fn handlers_without_methods_are_not_permitted() {
    let mut silent = Silent;
    let handle: Handle<Silent, Silent> = Handle::new_dir(1, Silent);
    assert_eq!(lookup(&mut silent, request(), "a".to_string()), Err(EPERM));
    assert_eq!(readdir(&mut silent, request(), 0), Err(EPERM));
    assert_eq!(getattr(&mut silent, request(), seed_entry(&handle)).err(), Some(EPERM));
    let answer: Reply = read(&mut silent, request());
    assert_eq!(answer, Err(FileError::FileNodeErr(NodeError::NotImplemented)));
    assert_eq!(read_reply(answer, 0, 10), Err(EPERM));
}

#[test]
fn attributes_start_from_the_seed() {
    let handle: TestHandle = Handle::new_file(5, StaticFile { text: "abc".to_string() });
    let seed = seed_entry(&handle);
    assert_eq!(seed.get_name(), "");
    assert_eq!(seed.get_ino(), 5);
    assert_eq!(seed.get_kind(), FileType::RegularFile);

    let mut file = StaticFile { text: "abc".to_string() };
    let reply = getattr(&mut file, request(), seed).unwrap();
    assert_eq!(reply.attr.ino, 5);
    assert_eq!(reply.attr.size, 3);
    assert_eq!(reply.attr.kind, FileType::RegularFile);
    assert_eq!(reply.attr.perm, 0o744);
    assert_eq!(reply.attr.nlink, 1);
    assert_eq!(reply.attr.blocks, 1);
    assert_eq!(reply.attr.uid, 0);
    assert_eq!(reply.ttl, Timespec { sec: 0, nsec: 0 });

    let dir_handle: TestHandle = Handle::new_dir(1, StaticDir::new());
    let mut dir = StaticDir::new();
    let reply = getattr(&mut dir, request(), seed_entry(&dir_handle)).unwrap();
    assert_eq!(reply.attr.kind, FileType::Directory);
    assert_eq!(reply.attr.mtime, Timespec { sec: 100, nsec: 7 });
    assert_eq!(reply.ttl, Timespec { sec: 20, nsec: 0 });
}

#[test]
fn reads_are_sliced_and_truncated() {
    let data: Vec<u8> = (0u8..10).collect();
    assert_eq!(read_reply(Ok(data.clone()), 0, 100), Ok(data.clone()));
    assert_eq!(read_reply(Ok(data.clone()), 3, 100), Ok(vec![3, 4, 5, 6, 7, 8, 9]));
    assert_eq!(read_reply(Ok(data.clone()), 3, 4), Ok(vec![3, 4, 5, 6]));
    assert_eq!(read_reply(Ok(data.clone()), 9, 1), Ok(vec![9]));
    assert_eq!(read_reply(Ok(data.clone()), 0, 0), Ok(vec![]));
    assert_eq!(read_reply(Ok(data.clone()), 10, 5), Ok(vec![]));
    assert_eq!(read_reply(Ok(data.clone()), 11, 5), Ok(vec![]));
    assert_eq!(read_reply(Ok(data.clone()), -1, 5), Ok(vec![]));
    assert_eq!(read_reply(Ok(data.clone()), i64::MAX, u32::MAX), Ok(vec![]));
    assert_eq!(read_reply(Err(FileError::NoSuchFile), 0, 5), Err(ENOENT));
    assert_eq!(read_reply(Err(FileError::IsDirectory), 0, 5), Err(EISDIR));
}

#[test]
fn listings_resume_after_the_offset() {
    let handle: TestHandle = Handle::new_dir(1, StaticDir::new());
    let entries: Vec<NodeEntry> = ["a", "b", "c", "d"]
        .iter()
        .map(|name| NodeEntry::new(name.to_string(), handle.clone()))
        .collect();

    assert_eq!(names(&readdir_items(&entries, 0)), vec!["a", "b", "c", "d"]);
    // the kernel hands back the offset of the last line it got
    let rest = readdir_items(&entries, 1);
    assert_eq!(names(&rest), vec!["c", "d"]);
    assert_eq!(rest[0].offset, 2);
    assert_eq!(rest[1].offset, 3);
    assert_eq!(names(&readdir_items(&entries, 2)), vec!["d"]);
    assert!(readdir_items(&entries, 3).is_empty());
    assert!(readdir_items(&entries, 4).is_empty());
    assert!(readdir_items(&entries, i64::MAX).is_empty());
    assert_eq!(readdir_items(&entries, -1).len(), 4);
    assert_eq!(readdir_items(&entries, i64::MIN).len(), 4);
    assert!(readdir_items(&Vec::new(), 0).is_empty());
}

#[test]
fn a_listing_is_packed_until_it_is_full() {
    let handle: TestHandle = Handle::new_dir(1, StaticDir::new());
    let entries: Vec<NodeEntry> = [".", "..", "hello.txt", "goodbye.txt"]
        .iter()
        .map(|name| NodeEntry::new(name.to_string(), handle.clone()))
        .collect();
    let items = readdir_items(&entries, 0);

    // 32 + 32 + 40 + 40 bytes
    let all = pack_listing(&items, 4096).to_vec();
    assert_eq!(all.len(), 144);
    assert_eq!(pack_listing(&items, 144).to_vec(), all);
    // the last entry does not fit: the listing ends before it
    assert_eq!(pack_listing(&items, 143).to_vec(), all[..104].to_vec());
    assert_eq!(pack_listing(&items, 64).to_vec(), all[..64].to_vec());
    assert_eq!(pack_listing(&items, 63).to_vec(), all[..32].to_vec());
    assert!(pack_listing(&items, 31).to_vec().is_empty());
    assert!(pack_listing(&items, 0).to_vec().is_empty());
    assert!(pack_listing(&Vec::new(), 4096).to_vec().is_empty());

    // the first entry: inode 1, offset 0, one byte of name, a directory
    assert_eq!(
        all[..32].to_vec(),
        vec![
            1, 0, 0, 0, 0, 0, 0, 0, 0, 0, 0, 0, 0, 0, 0, 0, 1, 0, 0, 0, 4, 0, 0, 0, b'.', 0, 0, 0,
            0, 0, 0, 0
        ]
    );

    let mut listing = DirReply::new();
    assert!(!listing.add(40, 2, 0, FileType::RegularFile, b"hello.txt"));
    assert!(listing.add(40, 3, 1, FileType::RegularFile, b"a"));
    assert!(listing.add(71, 3, 1, FileType::RegularFile, b"a"));
    assert_eq!(listing.as_slice().len(), 40);
    assert!(!listing.add(72, 3, 1, FileType::RegularFile, b"a"));
    assert_eq!(listing.as_slice().len(), 72);
}

#[test]
fn replies_become_frames_with_the_request_number() {
    let ttl = Timespec { sec: 20, nsec: 5 };
    let handle: TestHandle = Handle::new_file(2, StaticFile { text: String::new() });
    let mut found = NodeEntry::new("hello.txt".to_string(), handle.clone());
    found.ttl(ttl);
    found.size(12);

    let reply = lookup_reply(Ok(found.clone()));
    let response = lookup_response(7, reply);
    assert_eq!(response.get_header(), &fuse_out_header { len: 0, error: 0, unique: 7 });
    assert_eq!(
        response.get_body(),
        &FuseResponseBody::Lookup(entry(&ttl, &found.to_attr(), 0))
    );

    let response = getattr_response(8, getattr_reply(Ok(found.clone())));
    assert_eq!(response.get_header().unique, 8);
    assert_eq!(response.get_body(), &FuseResponseBody::GetAttr(attr(&ttl, &found.to_attr())));

    let response = read_response(9, Ok(vec![1, 2, 3]));
    assert_eq!(response.get_header().unique, 9);
    assert_eq!(response.get_body(), &FuseResponseBody::Read(vec![1, 2, 3]));

    let items = readdir_items(&vec![found.clone()], 0);
    let response = readdir_response(10, Ok(items.clone()), 4096);
    assert_eq!(response.get_header().unique, 10);
    match response.get_body() {
        FuseResponseBody::ReadDir(listing) => {
            assert_eq!(listing.as_slice(), pack_listing(&items, 4096).as_slice());
            assert_eq!(listing.as_slice().len(), 40);
        }
        _ => panic!("a listing was asked for"),
    }

    // every failure reaches the kernel as the negated error number
    let failures = [
        lookup_response(11, lookup_reply(Err(NodeError::NoSuchEntry))),
        getattr_response(11, getattr_reply(Err(NodeError::NoSuchEntry))),
        read_response(11, read_reply(Err(FileError::NoSuchFile), 0, 1)),
        readdir_response(11, readdir_reply(Err(DirError::NoSuchDirectory), 0), 4096),
        FuseResponse::error(11, ENOENT),
    ];
    for response in failures {
        let mut buf = BytesMut::new();
        FuseResponseEncoder::new().encode(response, &mut buf).unwrap();
        assert_eq!(buf.len(), 16);
        assert_eq!(
            fuse_out_header::get(&buf, 0),
            fuse_out_header { len: 16, error: -libc::ENOENT, unique: 11 }
        );
    }
}

#[test]
fn a_request_context_is_taken_from_the_header() {
    let header = fuse_in_header {
        len: 40,
        opcode: 3,
        unique: 5,
        nodeid: 6,
        uid: 7,
        gid: 8,
        pid: 9,
        padding: 0,
    };
    let req = Request::from_header(&header);
    assert_eq!((req.id(), req.uid(), req.gid(), req.pid()), (5, 7, 8, 9));
    assert_eq!(req, Request::new(5, 7, 8, 9));
}
