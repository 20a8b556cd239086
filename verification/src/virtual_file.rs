use vstd::prelude::*;
use vstd::slice::slice_subrange;

use crate::service::OS_RELEASE;
use crate::text::owned;

verus! {

/// The one inode the file system serves.
pub const FILE_INODE: u64 = 1;

/// Error number of the reply when the metadata of the OS release file cannot be read.
pub const METADATA_ERROR: i32 = 1;

/// A read-only file system that shows the contents of `source_file` as its one file.
pub struct VirtualFile {
    pub source_file: String,
}

/// Attributes of the served file, as plain numbers.
#[derive(Clone, Copy, Debug, PartialEq, Eq, Structural)]
pub struct FileAttributes {
    pub ino: u64,
    pub size: u64,
    pub blocks: u64,
    /// Access, modification, change and creation times, in seconds after the Unix epoch.
    pub time_secs: u64,
    /// Always a regular file.
    pub regular_file: bool,
    pub perm: u16,
    pub nlink: u32,
    pub uid: u32,
    pub gid: u32,
    pub rdev: u32,
    pub flags: u32,
    pub blksize: u32,
    /// How long the kernel may cache the attributes, in nanoseconds.
    pub ttl_nanos: u64,
}

/// The answer to a request for the attributes of the file.
#[derive(Clone, Copy, Debug, PartialEq, Eq, Structural)]
pub enum AttrReply {
    Attr(FileAttributes),
    Error(i32),
}

/// The attributes reported for a file of `size` bytes.
pub open spec fn spec_file_attributes(size: u64) -> FileAttributes {
    FileAttributes {
        ino: FILE_INODE,
        size,
        blocks: 1,
        time_secs: 0,
        regular_file: true,
        perm: 0o644,
        nlink: 1,
        uid: 501,
        gid: 20,
        rdev: 0,
        flags: 0,
        blksize: 0,
        ttl_nanos: 0,
    }
}

/// The bytes of `contents` from `offset` up to `offset + size` or the end, whichever comes
/// first.
pub open spec fn spec_read_window(contents: Seq<u8>, offset: int, size: int) -> Seq<u8> {
    contents.subrange(offset, min(offset + size, contents.len() as int))
}

/// The smaller of two integers.
pub open spec fn min(a: int, b: int) -> int {
    if a <= b {
        a
    } else {
        b
    }
}

impl VirtualFile {
    /// The file whose bytes answer a read of inode `ino`; `None`: reply "no such entry".
    pub fn read_source(&self, ino: u64) -> (r: Option<String>)
        ensures
            r is Some <==> ino == FILE_INODE,
            r matches Some(p) ==> p@ == self.source_file@,
    {
        if ino == FILE_INODE {
            Some(self.source_file.clone())
        } else {
            None
        }
    }

    /// The file whose metadata answers a request for the attributes of inode `ino`;
    /// `None`: reply "no such entry". The size reported is always that of the OS release
    /// file, whatever `source_file` is.
    pub fn metadata_source(&self, ino: u64) -> (r: Option<String>)
        ensures
            r is Some <==> ino == FILE_INODE,
            r matches Some(p) ==> p@ == OS_RELEASE@,
    {
        if ino == FILE_INODE {
            Some(owned(OS_RELEASE))
        } else {
            None
        }
    }
}

/// The bytes of `contents` that answer a read of `size` bytes at `offset`: from `offset` up to
/// `offset + size` or the end of the file, whichever comes first.
pub fn read_window(contents: &[u8], offset: i64, size: u32) -> (r: &[u8])
    requires
        0 <= offset <= contents@.len(),
        offset + size <= i64::MAX,
    ensures
        r@ == spec_read_window(contents@, offset as int, size as int),
{
    let len: usize = contents.len();
    let start: usize = offset as usize;
    let wanted: u64 = offset as u64 + size as u64;
    let end: usize = if wanted < len as u64 {
        wanted as usize
    } else {
        len
    };
    slice_subrange(contents, start, end)
}

/// The attributes reported for a file of `size` bytes.
pub fn file_attributes(size: u64) -> (a: FileAttributes)
    ensures
        a == spec_file_attributes(size),
{
    FileAttributes {
        ino: FILE_INODE,
        size,
        blocks: 1,
        time_secs: 0,
        regular_file: true,
        perm: 0o644,
        nlink: 1,
        uid: 501,
        gid: 20,
        rdev: 0,
        flags: 0,
        blksize: 0,
        ttl_nanos: 0,
    }
}

/// The answer to an attribute request once the metadata of the OS release file was looked
/// up: its length in bytes, or `None` where the lookup failed.
pub fn attr_reply(metadata_len: Option<u64>) -> (r: AttrReply)
    ensures
        r == match metadata_len {
            Some(len) => AttrReply::Attr(spec_file_attributes(len)),
            None => AttrReply::Error(METADATA_ERROR),
        },
{
    match metadata_len {
        Some(len) => AttrReply::Attr(file_attributes(len)),
        None => AttrReply::Error(METADATA_ERROR),
    }
}

/// A read returns at most the bytes asked for, and two reads, the second starting where the
/// first one's window ends, return together what one read of both sizes returns: reading a
/// file piece by piece gives back the file.
pub proof fn law_reads_compose(contents: Seq<u8>, offset: int, first: int, second: int)
    requires
        0 <= offset,
        0 <= first,
        0 <= second,
        offset + first <= contents.len(),
    ensures
        spec_read_window(contents, offset, first).len() <= first,
        spec_read_window(contents, offset, first) + spec_read_window(
            contents,
            offset + first,
            second,
        ) =~= spec_read_window(contents, offset, first + second),
{
}

/// Reading from offset 0 with a size of at least the file's length returns the whole file.
pub proof fn law_large_read_returns_file(contents: Seq<u8>, size: int)
    requires
        contents.len() <= size,
    ensures
        spec_read_window(contents, 0, size) =~= contents,
{
}

/// Asking for more bytes at the same offset only extends the reply: the smaller read is a
/// prefix of the larger one.
pub proof fn law_larger_read_extends(contents: Seq<u8>, offset: int, smaller: int, larger: int)
    requires
        0 <= offset <= contents.len(),
        0 <= smaller <= larger,
    ensures
        spec_read_window(contents, offset, smaller).is_prefix_of(
            spec_read_window(contents, offset, larger),
        ),
{
    let a = spec_read_window(contents, offset, smaller);
    let b = spec_read_window(contents, offset, larger);
    assert(a =~= b.subrange(0, a.len() as int));
}

} // verus!
