use chromebook_audio::virtual_file::{
    attr_reply, file_attributes, read_window, AttrReply, FileAttributes, FILE_INODE,
    METADATA_ERROR,
};
use chromebook_audio::VirtualFile;

fn file() -> VirtualFile {
    VirtualFile { source_file: "/usr/share/chromebook-audio/snd-sof.conf".to_string() }
}

#[test]
fn reads_of_the_file_inode_load_the_source() {
    assert_eq!(FILE_INODE, 1);
    assert_eq!(
        file().read_source(1),
        Some("/usr/share/chromebook-audio/snd-sof.conf".to_string())
    );
    assert_eq!(file().read_source(2), None);
    assert_eq!(file().read_source(0), None);
}

#[test]
fn attributes_come_from_the_os_release_file() {
    assert_eq!(file().metadata_source(1), Some("/etc/os-release".to_string()));
    assert_eq!(file().metadata_source(7), None);
}

#[test]
fn read_windows() {
    let c = b"hello world";
    assert_eq!(read_window(c, 0, 5), b"hello");
    assert_eq!(read_window(c, 6, 100), b"world");
    assert_eq!(read_window(c, 11, 4), b"");
    assert_eq!(read_window(c, 0, 0), b"");
    assert_eq!(read_window(c, 0, u32::MAX), b"hello world");
    assert_eq!(read_window(b"", 0, 4096), b"");
}

#[test]
fn consecutive_reads_reassemble_the_file() {
    let c = b"0123456789abcdef";
    let mut whole = read_window(c, 0, 5).to_vec();
    whole.extend_from_slice(read_window(c, 5, 7));
    whole.extend_from_slice(read_window(c, 12, 100));
    assert_eq!(whole, c.to_vec());
    assert_eq!(read_window(c, 3, 2).len(), 2);
}

#[test]
fn attributes_of_a_file() {
    let a = file_attributes(123);
    assert_eq!(
        a,
        FileAttributes {
            ino: 1,
            size: 123,
            blocks: 1,
            time_secs: 0,
            regular_file: true,
            perm: 0o644,
            nlink: 1,
            uid: 501,
            gid: 20,
            rdev: 0,
            flags: 0,
            blksize: 0,
            ttl_nanos: 0,
        }
    );
}

#[test]
fn attribute_replies() {
    assert_eq!(attr_reply(Some(42)), AttrReply::Attr(file_attributes(42)));
    assert_eq!(attr_reply(None), AttrReply::Error(1));
    assert_eq!(METADATA_ERROR, 1);
}

#[test]
fn larger_read_extends_smaller() {
    let c = b"0123456789";
    let small = read_window(c, 2, 3);
    let large = read_window(c, 2, 50);
    assert_eq!(small, b"234");
    assert!(large.starts_with(small));
}
