//! The decisions of the dispatcher: which node a request is for, what is
//! asked of the node's object, and what the kernel is told.
//!
//! The functions that take a handler's answer as an argument say exactly
//! what is made of it. The functions that call a handler say that they
//! ask it once, with what they were given, and that the reply is the one
//! made of its answer; what the answer is, the handler decides.

use time::Timespec;
use vstd::prelude::*;
use vstd::utf8::encode_utf8;
use crate::abi::fuse_out_header;
use crate::controller::Request;
use crate::errno::{EISDIR, ENOENT, ENOTDIR};
use crate::error::{DirError, FileError, NodeError};
use crate::file::{FileAttr, FileType};
use crate::handler::{Handle, HandleDispatcher};
use crate::link::{DirectoryEntryView, NodeEntry};
use crate::node::{Directory, File, Node, ReadReply};
use crate::response::{
    attr, dirent_fits, dirent_wire, entry, DirReply, FuseResponse, FuseResponseBody,
};

verus! {

/// What the kernel is told of a node that was looked up.
#[derive(Clone, Copy, Debug, PartialEq)]
pub struct EntryReply {
    /// For how long the kernel may keep the answer.
    pub ttl: Timespec,
    /// The attributes of the node.
    pub attr: FileAttr,
    /// The generation of the inode number; numbers are not used twice, so
    /// it is always 0.
    pub generation: u64,
}

/// What the kernel is told of the attributes of a node.
#[derive(Clone, Copy, Debug, PartialEq)]
pub struct AttrReply {
    /// For how long the kernel may keep the answer.
    pub ttl: Timespec,
    /// The attributes of the node.
    pub attr: FileAttr,
}

/// One line of a directory listing.
#[derive(Clone, Debug, PartialEq)]
pub struct DirItem {
    /// The inode number of the node.
    pub ino: u64,
    /// The place of the line in the listing, which the kernel hands back
    /// to ask for the lines after it.
    pub offset: i64,
    /// The kind of the node.
    pub kind: FileType,
    /// The name of the node.
    pub name: String,
}

/// The directory object behind a handle that was found in the registry.
///
/// No handle means that there is no such node; the handle of a regular
/// file means that the node is not a directory.
pub fn resolve_directory<D, F>(found: &Option<Handle<D, F>>) -> (r: Result<&D, i32>)
    ensures
        match *found {
            None => r == Err::<&D, i32>(ENOENT),
            Some(handle) => match handle.inner().spec_dispatch() {
                HandleDispatcher::Dir(dir) => r == Ok::<&D, i32>(&dir),
                HandleDispatcher::RegularFile(_) => r == Err::<&D, i32>(ENOTDIR),
            },
        },
{
    match found {
        None => Err(ENOENT),
        Some(handle) => match handle.get().dispatch_ref() {
            HandleDispatcher::Dir(dir) => Ok(dir),
            HandleDispatcher::RegularFile(_) => Err(ENOTDIR),
        },
    }
}

/// The file object behind a handle that was found in the registry.
///
/// No handle means that there is no such node; the handle of a directory
/// means that the node is not a regular file.
pub fn resolve_file<D, F>(found: &Option<Handle<D, F>>) -> (r: Result<&F, i32>)
    ensures
        match *found {
            None => r == Err::<&F, i32>(ENOENT),
            Some(handle) => match handle.inner().spec_dispatch() {
                HandleDispatcher::RegularFile(file) => r == Ok::<&F, i32>(&file),
                HandleDispatcher::Dir(_) => r == Err::<&F, i32>(EISDIR),
            },
        },
{
    match found {
        None => Err(ENOENT),
        Some(handle) => match handle.get().dispatch_ref() {
            HandleDispatcher::RegularFile(file) => Ok(file),
            HandleDispatcher::Dir(_) => Err(EISDIR),
        },
    }
}

/// The object behind a handle that was found in the registry, of either
/// kind, together with the entry that the object is handed to fill in its
/// attributes. No handle means that there is no such node.
pub fn resolve_node<D, F>(found: &Option<Handle<D, F>>) -> (r: Result<
    (&HandleDispatcher<D, F>, NodeEntry),
    i32,
>)
    ensures
        match *found {
            None => r == Err::<(&HandleDispatcher<D, F>, NodeEntry), i32>(ENOENT),
            Some(handle) => r matches Ok((dispatch, seed)) && {
                &&& *dispatch == handle.inner().spec_dispatch()
                &&& seed@ == DirectoryEntryView::new(
                    Seq::<char>::empty(),
                    handle.inner().ino(),
                    handle.inner().kind(),
                )
            },
        },
{
    match found {
        None => Err(ENOENT),
        Some(handle) => Ok((handle.get().dispatch_ref(), seed_entry(handle))),
    }
}

/// The answer of a handler as the replies are stated over it: an entry
/// by its view.
pub open spec fn answer_view(answer: Result<NodeEntry, NodeError>) -> Result<
    DirectoryEntryView,
    NodeError,
> {
    match answer {
        Ok(entry) => Ok(entry@),
        Err(error) => Err(error),
    }
}

/// What the kernel is told after a lookup, by the handler's answer: the
/// entry's time to live and attributes, or the error number of the
/// handler's error.
pub open spec fn spec_lookup_reply(result: Result<DirectoryEntryView, NodeError>) -> Result<
    EntryReply,
    i32,
> {
    match result {
        Ok(entry) => Ok(EntryReply { ttl: entry.ttl, attr: entry.to_attr(), generation: 0 }),
        Err(error) => Err(error.libc_code()),
    }
}

/// Makes the reply to a lookup of the handler's answer.
pub fn lookup_reply(result: Result<NodeEntry, NodeError>) -> (reply: Result<EntryReply, i32>)
    ensures
        reply == spec_lookup_reply(answer_view(result)),
{
    match result {
        Ok(entry) => Ok(EntryReply { ttl: entry.get_ttl(), attr: entry.to_attr(), generation: 0 }),
        Err(error) => Err(error.get_libc_code()),
    }
}

/// Asks a directory for the entry with the given name and makes the reply.
///
/// The directory is asked once, with `req` and `name` as they were given,
/// and is left as that call leaves it. The reply is the one that
/// `lookup_reply` makes of the directory's answer; so an error that is
/// replied is a positive error number.
pub fn lookup<C, D: Directory<C> + ?Sized>(dir: &mut D, req: Request, name: String) -> (reply:
    Result<EntryReply, i32>)
    ensures
        exists|asked: &mut D, answer: Result<NodeEntry, NodeError>|
            {
                &&& &*asked == &*old(dir)
                &&& &*final(asked) == &*final(dir)
                &&& #[trigger] call_ensures(
                    <D as Directory<C>>::lookup,
                    (asked, req, name),
                    answer,
                )
                &&& reply == spec_lookup_reply(answer_view(answer))
            },
        reply matches Err(errno) ==> errno > 0,
        reply matches Ok(entry) ==> entry.generation == 0,
{
    let ask = <D as Directory<C>>::lookup;
    lookup_reply(ask(dir, req, name))
}

/// What the kernel is told of the attributes of a node, by the handler's
/// answer.
pub open spec fn spec_getattr_reply(result: Result<DirectoryEntryView, NodeError>) -> Result<
    AttrReply,
    i32,
> {
    match result {
        Ok(entry) => Ok(AttrReply { ttl: entry.ttl, attr: entry.to_attr() }),
        Err(error) => Err(error.libc_code()),
    }
}

/// Makes the reply to a request for attributes of the handler's answer.
pub fn getattr_reply(result: Result<NodeEntry, NodeError>) -> (reply: Result<AttrReply, i32>)
    ensures
        reply == spec_getattr_reply(answer_view(result)),
{
    match result {
        Ok(entry) => Ok(AttrReply { ttl: entry.get_ttl(), attr: entry.to_attr() }),
        Err(error) => Err(error.get_libc_code()),
    }
}

/// The entry that a node is handed to fill in its attributes: the entry
/// of the node's own handle, without a name and with the defaults.
pub fn seed_entry<D, F>(handle: &Handle<D, F>) -> (entry: NodeEntry)
    ensures
        entry@ == DirectoryEntryView::new(
            Seq::<char>::empty(),
            handle.inner().ino(),
            handle.inner().kind(),
        ),
{
    NodeEntry::new(String::new(), handle.clone())
}

/// Asks a node for its attributes, starting from `seed`, and makes the
/// reply.
///
/// The node is asked once, with `req` and `seed` as they were given, and
/// is left as that call leaves it. The reply is the one that
/// `getattr_reply` makes of the node's answer; so an error that is replied
/// is a positive error number.
pub fn getattr<C, N: Node<C> + ?Sized>(node: &mut N, req: Request, seed: NodeEntry) -> (reply:
    Result<AttrReply, i32>)
    ensures
        exists|asked: &mut N, answer: Result<NodeEntry, NodeError>|
            {
                &&& &*asked == &*old(node)
                &&& &*final(asked) == &*final(node)
                &&& #[trigger] call_ensures(
                    <N as Node<C>>::read_attributes,
                    (asked, req, seed),
                    answer,
                )
                &&& reply == spec_getattr_reply(answer_view(answer))
            },
        reply matches Err(errno) ==> errno > 0,
{
    let ask = <N as Node<C>>::read_attributes;
    getattr_reply(ask(node, req, seed))
}

/// The index of the first entry that a listing from `offset` holds: the
/// first entry of all for offset 0, else the entry after the one that the
/// kernel got with this offset.
pub open spec fn listed_from(offset: i64) -> int {
    if offset == 0 {
        0
    } else {
        offset + 1
    }
}

/// The index of the first entry that is listed, within the `len` entries
/// there are: a negative offset lists from the start as offset 0 does.
pub open spec fn first_listed(offset: i64, len: nat) -> int {
    if listed_from(offset) < 0 {
        0
    } else if listed_from(offset) > len {
        len as int
    } else {
        listed_from(offset)
    }
}

/// The number of entries that have an offset at all: an offset is a
/// signed 64-bit number.
pub open spec fn with_offset(len: nat) -> int {
    if len > i64::MAX {
        i64::MAX + 1
    } else {
        len as int
    }
}

/// The line of a listing for the entry at `index`.
pub open spec fn item_matches(item: DirItem, entry: DirectoryEntryView, index: int) -> bool {
    &&& item.ino == entry.ino
    &&& item.offset == index
    &&& item.kind == entry.kind
    &&& item.name@ == entry.name
}

/// `items` are the lines for the entries from index `first` on, in order,
/// each with its index as offset.
pub open spec fn items_match(items: Seq<DirItem>, entries: Seq<NodeEntry>, first: int) -> bool {
    forall|j: int|
        0 <= j < items.len() ==> #[trigger] item_matches(items[j], entries[first + j]@, first + j)
}

/// The lines of a listing from `offset` on: one line for each entry from
/// `first_listed` to the last, in order, with the entry's index as the
/// line's offset.
pub fn readdir_items(entries: &Vec<NodeEntry>, offset: i64) -> (items: Vec<DirItem>)
    ensures
        first_listed(offset, entries@.len()) <= with_offset(entries@.len()) ==> items@.len()
            == with_offset(entries@.len()) - first_listed(offset, entries@.len()),
        first_listed(offset, entries@.len()) > with_offset(entries@.len()) ==> items@.len() == 0,
        items_match(items@, entries@, first_listed(offset, entries@.len())),
{
    let len: usize = entries.len();
    let mut items: Vec<DirItem> = Vec::new();
    if offset == i64::MAX {
        return items;
    }
    let skip: u64 = if offset <= 0 {
        0
    } else {
        (offset + 1) as u64
    };
    if skip >= len as u64 {
        return items;
    }
    let first: usize = skip as usize;
    let mut i: usize = first;
    while i < len && i as u64 <= 0x7fff_ffff_ffff_ffffu64
        invariant
            len == entries@.len(),
            first == first_listed(offset, entries@.len()),
            first <= i <= len,
            i <= with_offset(entries@.len()),
            items@.len() == i - first,
            items_match(items@, entries@, first as int),
        decreases len - i,
    {
        let (ino, kind, name) = entries[i].to_reply();
        let item = DirItem { ino, offset: i as i64, kind, name };
        items.push(item);
        assert(item_matches(item, entries@[i as int]@, i as int));
        i = i + 1;
    }
    items
}

/// `reply` is what the kernel is told after a readdir from `offset` on
/// to which the directory answered with `answer`: one line for each entry
/// from `first_listed` to the last, in order and with the entry's index as
/// the line's offset, or the error number of the directory's error.
pub open spec fn is_readdir_reply(
    answer: Result<Vec<NodeEntry>, DirError>,
    offset: i64,
    reply: Result<Vec<DirItem>, i32>,
) -> bool {
    match answer {
        Ok(entries) => reply matches Ok(items) && {
            &&& first_listed(offset, entries@.len()) <= with_offset(entries@.len())
                ==> items@.len() == with_offset(entries@.len()) - first_listed(
                offset,
                entries@.len(),
            )
            &&& first_listed(offset, entries@.len()) > with_offset(entries@.len())
                ==> items@.len() == 0
            &&& items_match(items@, entries@, first_listed(offset, entries@.len()))
        },
        Err(error) => reply == Err::<Vec<DirItem>, i32>(error.libc_code()),
    }
}

/// What the kernel is told after a readdir, by the handler's answer: the
/// lines from `offset` on, or the error number of the handler's error.
pub fn readdir_reply(result: Result<Vec<NodeEntry>, DirError>, offset: i64) -> (reply: Result<
    Vec<DirItem>,
    i32,
>)
    ensures
        is_readdir_reply(result, offset, reply),
{
    match result {
        Ok(entries) => Ok(readdir_items(&entries, offset)),
        Err(error) => Err(error.get_libc_code()),
    }
}

/// Asks a directory for its entries and makes the reply for a listing
/// from `offset` on.
///
/// The directory is asked once, with `req` as it was given, and is left
/// as that call leaves it. The reply is the one that `readdir_reply` makes
/// of the directory's answer; so an error that is replied is a positive
/// error number.
pub fn readdir<C, D: Directory<C> + ?Sized>(dir: &mut D, req: Request, offset: i64) -> (reply:
    Result<Vec<DirItem>, i32>)
    ensures
        exists|asked: &mut D, answer: Result<Vec<NodeEntry>, DirError>|
            {
                &&& &*asked == &*old(dir)
                &&& &*final(asked) == &*final(dir)
                &&& #[trigger] call_ensures(<D as Directory<C>>::readdir, (asked, req), answer)
                &&& is_readdir_reply(answer, offset, reply)
            },
        reply matches Err(errno) ==> errno > 0,
{
    let ask = <D as Directory<C>>::readdir;
    readdir_reply(ask(dir, req), offset)
}

/// The part of a file's content that a read of `size` bytes at `offset`
/// gets: the bytes from `offset` on, at most `size` of them, and none
/// where `offset` is not within the content.
pub open spec fn read_window(data: Seq<u8>, offset: i64, size: u32) -> Seq<u8> {
    if offset < 0 || offset >= data.len() {
        Seq::empty()
    } else if offset + size >= data.len() {
        data.subrange(offset as int, data.len() as int)
    } else {
        data.subrange(offset as int, offset + size)
    }
}

/// What the kernel is told after a read, by the handler's answer: the
/// window of the content that was asked for, or the error number of the
/// handler's error.
pub fn read_reply(result: Result<Vec<u8>, FileError>, offset: i64, size: u32) -> (reply: Result<
    Vec<u8>,
    i32,
>)
    ensures
        match result {
            Ok(data) => reply matches Ok(window) && window@ == read_window(data@, offset, size),
            Err(error) => reply == Err::<Vec<u8>, i32>(error.libc_code()),
        },
{
    match result {
        Ok(data) => {
            let len: usize = data.len();
            let mut window: Vec<u8> = Vec::new();
            if offset < 0 || offset as u64 >= len as u64 {
                return Ok(window);
            }
            let start: usize = offset as usize;
            let end: usize = if size as u64 >= (len - start) as u64 {
                len
            } else {
                start + size as usize
            };
            let mut i: usize = start;
            while i < end
                invariant
                    start <= i <= end <= len,
                    len == data@.len(),
                    window@ == data@.subrange(start as int, i as int),
                decreases end - i,
            {
                window.push(data[i]);
                i = i + 1;
                assert(window@ =~= data@.subrange(start as int, i as int));
            }
            Ok(window)
        },
        Err(error) => Err(error.get_libc_code()),
    }
}

/// Asks a file for its content. The answer may resolve later; once it
/// has, `read_reply` makes the reply of it.
///
/// The file is asked once, with `req` as it was given, and is left as
/// that call leaves it. What is returned is the file's answer.
pub fn read<C, R: ReadReply, F: File<C, R> + ?Sized>(file: &mut F, req: Request) -> (answer: R)
    ensures
        exists|asked: &mut F|
            {
                &&& &*asked == &*old(file)
                &&& &*final(asked) == &*final(file)
                &&& #[trigger] call_ensures(<F as File<C, R>>::read, (asked, req), answer)
            },
{
    let ask = <F as File<C, R>>::read;
    ask(file, req)
}

/// The packed entry of a line: its name stands in the entry as the bytes
/// of its UTF-8 form.
pub open spec fn item_wire(item: DirItem) -> Seq<u8> {
    dirent_wire(item.ino, item.offset, item.kind, encode_utf8(item.name@))
}

/// The listing that is made of `items` after `packed`, within `limit`
/// bytes: the lines are packed in order up to the first that does not
/// fit, where the listing ends.
pub open spec fn listing_wire(items: Seq<DirItem>, limit: nat, packed: Seq<u8>) -> Seq<u8>
    decreases items.len(),
{
    if items.len() == 0 || !dirent_fits(packed.len(), encode_utf8(items[0].name@).len(), limit) {
        packed
    } else {
        listing_wire(items.skip(1), limit, packed + item_wire(items[0]))
    }
}

/// Packs the lines of a listing for a reply of at most `limit` bytes. The
/// first line that does not fit ends the listing; the kernel asks for the
/// rest with the offset of the last line it got.
pub fn pack_listing(items: &Vec<DirItem>, limit: usize) -> (reply: DirReply)
    ensures
        reply@ == listing_wire(items@, limit as nat, Seq::empty()),
        reply@.len() <= limit,
{
    let mut reply = DirReply::new();
    let mut i: usize = 0;
    assert(items@.skip(0) =~= items@);
    while i < items.len()
        invariant
            i <= items@.len(),
            reply@.len() <= limit,
            listing_wire(items@, limit as nat, Seq::empty()) == listing_wire(
                items@.skip(i as int),
                limit as nat,
                reply@,
            ),
        decreases items@.len() - i,
    {
        let item = &items[i];
        let ghost rest = items@.skip(i as int);
        assert(rest[0] == items@[i as int]);
        assert(rest.skip(1) =~= items@.skip(i + 1));
        let name = item.name.as_str().as_bytes();
        let full = reply.add(limit, item.ino, item.offset, item.kind, name);
        if full {
            return reply;
        }
        proof {
            crate::response::lemma_dirent_layout(
                item.ino,
                item.offset,
                item.kind,
                encode_utf8(item.name@),
            );
        }
        i = i + 1;
    }
    reply
}

/// The frame-level reply to a lookup: the entry, or the error.
pub fn lookup_response(unique: u64, reply: Result<EntryReply, i32>) -> (resp: FuseResponse)
    ensures
        resp == match reply {
            Ok(found) => FuseResponse {
                header: fuse_out_header { len: 0, error: 0, unique },
                body: FuseResponseBody::Lookup(
                    crate::response::spec_entry(found.ttl, found.attr, found.generation),
                ),
            },
            Err(errno) => FuseResponse {
                header: fuse_out_header { len: 0, error: errno, unique },
                body: FuseResponseBody::Init(),
            },
        },
{
    match reply {
        Ok(found) => FuseResponse::reply(
            unique,
            FuseResponseBody::Lookup(entry(&found.ttl, &found.attr, found.generation)),
        ),
        Err(errno) => FuseResponse::error(unique, errno),
    }
}

/// The frame-level reply to a request for attributes: the attributes, or
/// the error.
pub fn getattr_response(unique: u64, reply: Result<AttrReply, i32>) -> (resp: FuseResponse)
    ensures
        resp == match reply {
            Ok(found) => FuseResponse {
                header: fuse_out_header { len: 0, error: 0, unique },
                body: FuseResponseBody::GetAttr(crate::response::spec_attr(found.ttl, found.attr)),
            },
            Err(errno) => FuseResponse {
                header: fuse_out_header { len: 0, error: errno, unique },
                body: FuseResponseBody::Init(),
            },
        },
{
    match reply {
        Ok(found) => FuseResponse::reply(
            unique,
            FuseResponseBody::GetAttr(attr(&found.ttl, &found.attr)),
        ),
        Err(errno) => FuseResponse::error(unique, errno),
    }
}

/// The frame-level reply to a read: the bytes, or the error.
pub fn read_response(unique: u64, reply: Result<Vec<u8>, i32>) -> (resp: FuseResponse)
    ensures
        resp == match reply {
            Ok(data) => FuseResponse {
                header: fuse_out_header { len: 0, error: 0, unique },
                body: FuseResponseBody::Read(data),
            },
            Err(errno) => FuseResponse {
                header: fuse_out_header { len: 0, error: errno, unique },
                body: FuseResponseBody::Init(),
            },
        },
{
    match reply {
        Ok(data) => FuseResponse::reply(unique, FuseResponseBody::Read(data)),
        Err(errno) => FuseResponse::error(unique, errno),
    }
}

/// The frame-level reply to a readdir for at most `size` bytes: the
/// packed listing, or the error.
pub fn readdir_response(unique: u64, reply: Result<Vec<DirItem>, i32>, size: u32) -> (resp:
    FuseResponse)
    ensures
        match reply {
            Ok(items) => {
                &&& resp.header == (fuse_out_header { len: 0, error: 0, unique })
                &&& resp.body matches FuseResponseBody::ReadDir(listing)
                &&& listing@ == listing_wire(items@, size as nat, Seq::empty())
            },
            Err(errno) => resp == (FuseResponse {
                header: fuse_out_header { len: 0, error: errno, unique },
                body: FuseResponseBody::Init(),
            }),
        },
{
    match reply {
        Ok(items) => FuseResponse::reply(
            unique,
            FuseResponseBody::ReadDir(pack_listing(&items, size as usize)),
        ),
        Err(errno) => FuseResponse::error(unique, errno),
    }
}

} // verus!
