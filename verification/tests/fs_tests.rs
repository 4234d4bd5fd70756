use lib::attr::{
    check_path, decode_stat, FileAttr, FilePermissions, FileTimes, SystemTime,
    FILE_ATTR_DIRECTORY_BIT,
};
use lib::bytes::{read_u32_le, write_u32_le};
use lib::dir::{complete_read_dir, read_dir_request, READ_DIR_REQUEST_MAGIC};
use lib::error::{syscall_failed, syscall_len, unsupported, IoError, TryLockError};
use lib::file::{first_nonempty, DirBuilder, File, OpenOptions, OpenRequest, SeekFrom};
use lib::fs::{
    canonicalize, copy, link, readlink, remove_dir_all, rename, rmdir, set_perm, set_times,
    set_times_nofollow, symlink, try_exists, unlink,
};
use lib::read_dir::{child_path, ReadDirBuilder};

fn metadata(kind: u32, size: u32) -> Vec<u8> {
    let mut m = vec![0u8; 16];
    write_u32_le(&mut m, 0, kind);
    write_u32_le(&mut m, 4, size);
    m
}

fn stat_ok(kind: u32, size: u32) -> FileAttr {
    match decode_stat(0, &metadata(kind, size)) {
        Ok(a) => a,
        Err(_) => panic!("stat reply refused"),
    }
}

#[test]
fn u32_le_round_trip_at_offset() {
    let mut b = vec![0xAAu8; 10];
    write_u32_le(&mut b, 3, 0x1234_5678);
    assert_eq!(b, vec![0xAA, 0xAA, 0xAA, 0x78, 0x56, 0x34, 0x12, 0xAA, 0xAA, 0xAA]);
    assert_eq!(read_u32_le(&b, 3), 0x1234_5678);
    assert_eq!(read_u32_le(&[1, 0, 0, 0], 0), 1);
    assert_eq!(read_u32_le(&[0xff, 0xff, 0xff, 0xff], 0), u32::MAX);
}

#[test]
fn syscall_status_top_bit_means_failure() {
    assert!(!syscall_failed(0));
    assert!(!syscall_failed(0x7fff_ffff));
    assert!(syscall_failed(0x8000_0000));
    assert!(syscall_failed(u32::MAX));
}

#[test]
fn syscall_len_fits() {
    assert_eq!(syscall_len(0), Ok(0));
    assert_eq!(syscall_len(4096), Ok(4096));
}

#[test]
fn unsupported_is_unsupported_platform() {
    assert_eq!(unsupported::<u8>(), Err(IoError::UnsupportedPlatform));
}

#[test]
fn stat_of_directory_packs_kind_and_size() {
    let a = stat_ok(2, 16);
    assert!(a.file_type().is_dir());
    assert!(!a.file_type().is_file());
    assert!(!a.file_type().is_symlink());
    assert_eq!(a.size(), 16);
}

#[test]
fn stat_of_regular_file_packs_kind_and_size() {
    let a = stat_ok(1, FILE_ATTR_DIRECTORY_BIT - 1);
    assert!(a.file_type().is_file());
    assert!(!a.file_type().is_dir());
    assert_eq!(a.size(), (FILE_ATTR_DIRECTORY_BIT - 1) as u64);
    let empty = stat_ok(1, 0);
    assert_eq!(empty.size(), 0);
}

#[test]
fn stat_reply_errors() {
    assert_eq!(decode_stat(0x8000_0000, &metadata(1, 5)).err(), Some(IoError::UnsupportedPlatform));
    assert_eq!(decode_stat(0, &metadata(3, 5)).err(), Some(IoError::UnsupportedPlatform));
    assert_eq!(decode_stat(0, &metadata(0, 5)).err(), Some(IoError::UnsupportedPlatform));
    assert_eq!(
        decode_stat(0, &metadata(2, FILE_ATTR_DIRECTORY_BIT)).err(),
        Some(IoError::UnsupportedPlatform)
    );
}

#[test]
fn file_attr_times_and_permissions() {
    let a = stat_ok(1, 3);
    assert!(!a.perm().readonly());
    assert!(a.modified().is_err());
    assert!(a.accessed().is_err());
    assert_eq!(a.created().err(), Some(IoError::UnsupportedPlatform));
    let mut p = a.perm();
    p.set_readonly(true);
    assert!(p.readonly());
    assert_ne!(p, a.perm());
    let mut t = FileTimes::default();
    t.set_accessed(SystemTime { secs: 1, nanos: 2 });
    t.set_modified(SystemTime { secs: 3, nanos: 4 });
}

#[test]
fn permissions_compare_by_flag() {
    let mut p = stat_ok(1, 0).perm();
    let mut q = stat_ok(2, 0).perm();
    assert_eq!(p, q);
    p.set_readonly(true);
    assert_ne!(p, q);
    q.set_readonly(true);
    assert_eq!(p, q);
    assert_eq!(p.clone().readonly(), p.readonly());
}

#[test]
fn file_types_compare_by_kind() {
    assert_eq!(stat_ok(2, 1).file_type(), stat_ok(2, 9).file_type());
    assert_ne!(stat_ok(2, 1).file_type(), stat_ok(1, 1).file_type());
}

#[test]
fn path_checks() {
    assert_eq!(check_path(b""), Err(IoError::UnsupportedPlatform));
    assert_eq!(check_path(&[b'a'; 228]), Ok(228));
    assert_eq!(check_path(&[b'a'; 229]), Err(IoError::UnsupportedPlatform));
    assert_eq!(check_path(b"/x"), Ok(2));
}

fn opts(read: bool, write: bool, append: bool, truncate: bool, create: bool, create_new: bool) -> OpenOptions {
    let mut o = OpenOptions::new();
    o.read(read);
    o.write(write);
    o.append(append);
    o.truncate(truncate);
    o.create(create);
    o.create_new(create_new);
    o
}

#[test]
fn open_mode_read_only() {
    assert_eq!(opts(true, false, false, false, false, false).open_mode(), Ok(0));
}

#[test]
fn open_mode_write_bits() {
    assert_eq!(opts(false, true, false, false, false, false).open_mode(), Ok(1));
    assert_eq!(opts(false, true, false, true, true, false).open_mode(), Ok(7));
    assert_eq!(opts(false, false, true, false, false, false).open_mode(), Ok(9));
    assert_eq!(opts(false, true, true, true, true, false).open_mode(), Ok(15));
}

#[test]
fn open_mode_refusals() {
    let refused = Err(IoError::UnsupportedPlatform);
    assert_eq!(OpenOptions::new().open_mode(), refused);
    assert_eq!(opts(true, true, false, false, false, false).open_mode(), refused);
    assert_eq!(opts(true, true, true, false, false, false).open_mode(), refused);
    assert_eq!(opts(true, false, false, false, true, false).open_mode(), refused);
    assert_eq!(opts(true, false, false, true, false, false).open_mode(), refused);
    assert_eq!(opts(false, true, false, false, false, true).open_mode(), refused);
}

#[test]
fn open_request_and_reply() {
    let o = opts(false, true, false, false, true, false);
    assert_eq!(File::open_request(b"/log", &o), Ok(OpenRequest { flags: 3, path_len: 4 }));
    assert_eq!(File::open_request(b"/log", &OpenOptions::new()), Err(IoError::UnsupportedPlatform));
    let f = File::opened(5).ok().unwrap();
    assert_eq!(f.fd(), 5);
    assert!(File::opened(0x8000_0002).is_err());
}

#[test]
fn read_is_capped_and_end_is_sticky() {
    let mut f = File::opened(3).ok().unwrap();
    assert_eq!(f.read_request(0), None);
    assert_eq!(f.read_request(1000), Some(512));
    assert_eq!(f.read_request(10), Some(10));
    let bounce: Vec<u8> = (0..512u32).map(|i| i as u8).collect();
    let mut buf = vec![0xEEu8; 10];
    assert_eq!(f.complete_read(10, 10, &bounce, &mut buf), Ok(10));
    assert_eq!(buf, (0..10u8).collect::<Vec<u8>>());
    assert_eq!(f.read_request(10), Some(10));
    let mut buf2 = vec![0xEEu8; 10];
    assert_eq!(f.complete_read(10, 4, &bounce, &mut buf2), Ok(4));
    assert_eq!(buf2, vec![0, 1, 2, 3, 0xEE, 0xEE, 0xEE, 0xEE, 0xEE, 0xEE]);
    assert_eq!(f.read_request(10), None);
}

#[test]
fn read_reply_errors_leave_buffer() {
    let mut f = File::opened(3).ok().unwrap();
    let bounce = vec![1u8; 512];
    let mut buf = vec![9u8; 8];
    assert_eq!(f.complete_read(8, 9, &bounce, &mut buf), Err(IoError::UnsupportedPlatform));
    assert_eq!(f.complete_read(8, 0x8000_0000, &bounce, &mut buf), Err(IoError::UnsupportedPlatform));
    assert_eq!(buf, vec![9u8; 8]);
    assert_eq!(f.read_request(8), Some(8));
}

#[test]
fn write_reply_counts() {
    assert_eq!(File::write_request(6), Ok(6));
    assert_eq!(File::complete_write(6, 6), Ok(6));
    assert_eq!(File::complete_write(6, 2), Ok(2));
    assert_eq!(File::complete_write(6, 7), Err(IoError::UnsupportedPlatform));
    assert_eq!(File::complete_write(6, 0xffff_ffff), Err(IoError::UnsupportedPlatform));
}

#[test]
fn file_unsupported_operations() {
    let f = File::opened(4).ok().unwrap();
    let e = IoError::UnsupportedPlatform;
    assert!(f.file_attr().is_err());
    assert_eq!(f.fsync(), Err(e));
    assert_eq!(f.datasync(), Err(e));
    assert_eq!(f.lock(), Err(e));
    assert_eq!(f.lock_shared(), Err(e));
    assert_eq!(f.try_lock(), Err(TryLockError::Error(e)));
    assert_eq!(f.try_lock_shared(), Err(TryLockError::Error(e)));
    assert_eq!(f.unlock(), Err(e));
    assert_eq!(f.truncate(0), Err(e));
    assert_eq!(f.seek(SeekFrom::Start(0)), Err(e));
    assert_eq!(f.tell(), Err(e));
    assert!(f.duplicate().is_err());
    assert_eq!(f.set_permissions(stat_ok(1, 0).perm()), Err(e));
    assert_eq!(f.set_times(FileTimes::default()), Err(e));
    assert_eq!(f.size(), None);
    assert_eq!(f.flush(), Ok(()));
    assert!(!f.is_read_vectored());
    assert!(!f.is_write_vectored());
    assert_eq!(DirBuilder::new().mkdir(b"/d"), Err(e));
}

#[test]
fn free_functions_unsupported() {
    let e = Err(IoError::UnsupportedPlatform);
    let p = stat_ok(1, 0).perm();
    assert_eq!(unlink(b"/a"), e);
    assert_eq!(rename(b"/a", b"/b"), e);
    assert_eq!(set_perm(b"/a", p), e);
    assert_eq!(set_times(b"/a", FileTimes::default()), e);
    assert_eq!(set_times_nofollow(b"/a", FileTimes::default()), e);
    assert_eq!(rmdir(b"/a"), e);
    assert_eq!(remove_dir_all(b"/a"), e);
    assert_eq!(try_exists(b"/a"), Err(IoError::UnsupportedPlatform));
    assert_eq!(readlink(b"/a"), Err(IoError::UnsupportedPlatform));
    assert_eq!(symlink(b"/a", b"/b"), e);
    assert_eq!(link(b"/a", b"/b"), e);
    assert_eq!(canonicalize(b"/a"), Err(IoError::UnsupportedPlatform));
    assert_eq!(copy(b"/a", b"/b"), Err(IoError::UnsupportedPlatform));
}

#[test]
fn vectored_read_uses_first_nonempty_buffer() {
    let mut f = File::opened(3).ok().unwrap();
    assert_eq!(f.read_vectored_request(&[0, 700, 4]), Some((1, 512)));
    assert_eq!(f.read_vectored_request(&[0, 0, 4]), Some((2, 4)));
    assert_eq!(f.read_vectored_request(&[0, 0]), None);
    assert_eq!(f.read_vectored_request(&[]), None);
    let bounce = vec![0u8; 512];
    let mut buf = vec![0u8; 4];
    assert_eq!(f.complete_read(4, 1, &bounce, &mut buf), Ok(1));
    assert_eq!(f.read_vectored_request(&[0, 8]), None);
}

#[test]
fn vectored_write_uses_first_nonempty_buffer() {
    assert_eq!(File::write_vectored_request(&[0, 6, 2]), (Some(1), Ok(6)));
    assert_eq!(File::write_vectored_request(&[0, 0]), (None, Ok(0)));
    assert_eq!(File::write_vectored_request(&[]), (None, Ok(0)));
}

#[test]
fn vectored_target_is_first_nonempty() {
    assert_eq!(first_nonempty(&[0, 0, 3, 4]), Some(2));
    assert_eq!(first_nonempty(&[5]), Some(0));
    assert_eq!(first_nonempty(&[0, 0]), None);
    assert_eq!(first_nonempty(&[]), None);
}

#[test]
fn read_dir_request_layout() {
    let req = read_dir_request(b"/bin", 0x1000).ok().unwrap();
    assert_eq!(req.len(), 20);
    assert_eq!(read_u32_le(&req, 0), READ_DIR_REQUEST_MAGIC);
    assert_eq!(&req[0..4], b"RDIR");
    assert_eq!(read_u32_le(&req, 4), 4);
    assert_eq!(read_u32_le(&req, 8), 0x1000);
    assert_eq!(read_u32_le(&req, 12), 4096);
    assert_eq!(&req[16..], b"/bin");
    assert_eq!(read_dir_request(b"", 0).err(), Some(IoError::UnsupportedPlatform));
    assert_eq!(read_dir_request(&[b'x'; 229], 0).err(), Some(IoError::UnsupportedPlatform));
}

#[test]
fn read_dir_reply_length() {
    assert_eq!(complete_read_dir(0), Ok(0));
    assert_eq!(complete_read_dir(4096), Ok(4096));
    assert_eq!(complete_read_dir(4097), Err(IoError::UnsupportedPlatform));
    assert_eq!(complete_read_dir(0x8000_0000), Err(IoError::UnsupportedPlatform));
}

/// The names of a listing as the builder reads them, stopping at the first
/// refusal.
fn listing_names(listing: &[u8]) -> Result<Vec<Vec<u8>>, IoError> {
    let mut b = ReadDirBuilder::new(b"/d", listing);
    let mut names = Vec::new();
    while let Some(path) = b.next_path()? {
        names.push(path[3..].to_vec());
        b.add(&stat_ok(1, 0));
    }
    Ok(names)
}

#[test]
fn listing_splits_on_newlines() {
    let names = vec![b"a".to_vec(), b"bc".to_vec()];
    assert_eq!(listing_names(b"a\nbc\n").ok(), Some(names.clone()));
    assert_eq!(listing_names(b"a\nbc").ok(), Some(names));
    assert_eq!(listing_names(b"").ok(), Some(Vec::new()));
    assert_eq!(listing_names(b"only").ok(), Some(vec![b"only".to_vec()]));
}

#[test]
fn listing_with_empty_name_is_refused() {
    assert_eq!(listing_names(b"\n").err(), Some(IoError::UnsupportedPlatform));
    assert_eq!(listing_names(b"a\n\nb").err(), Some(IoError::UnsupportedPlatform));
    assert_eq!(listing_names(b"a\n\n").err(), Some(IoError::UnsupportedPlatform));
    assert_eq!(listing_names(b"\na").err(), Some(IoError::UnsupportedPlatform));
}

#[test]
fn names_before_an_empty_one_are_looked_up_first() {
    let mut b = ReadDirBuilder::new(b"/d", b"x\ny\n\nz");
    assert_eq!(b.next_path(), Ok(Some(b"/d/x".to_vec())));
    b.add(&stat_ok(1, 0));
    assert_eq!(b.next_path(), Ok(Some(b"/d/y".to_vec())));
    b.add(&stat_ok(2, 0));
    assert_eq!(b.next_path(), Err(IoError::UnsupportedPlatform));
}

#[test]
fn child_paths() {
    assert_eq!(child_path(b"/dir", b"x"), b"/dir/x".to_vec());
    assert_eq!(child_path(b"/dir/", b"x"), b"/dir/x".to_vec());
    assert_eq!(child_path(b"/", b"x"), b"/x".to_vec());
    assert_eq!(child_path(b"", b"x"), b"x".to_vec());
    assert_eq!(child_path(b"rel", b"x"), b"rel/x".to_vec());
    assert_eq!(child_path(b"/dir", b"/abs"), b"/abs".to_vec());
}

#[test]
fn read_dir_walks_entries_in_order() {
    let mut b = ReadDirBuilder::new(b"/etc", b"motd\nconf\n");
    assert_eq!(b.next_path(), Ok(Some(b"/etc/motd".to_vec())));
    b.add(&stat_ok(1, 7));
    assert_eq!(b.next_path(), Ok(Some(b"/etc/conf".to_vec())));
    b.add(&stat_ok(2, 0));
    assert_eq!(b.next_path(), Ok(None));
    let mut rd = b.finish();
    assert_eq!(rd.entry_count(), 2);
    assert_eq!(rd.position(), 0);
    let first = rd.next().unwrap().ok().unwrap();
    assert_eq!(first.path(), b"/etc/motd".to_vec());
    assert_eq!(first.file_name(), b"motd".to_vec());
    assert!(first.file_type().ok().unwrap().is_file());
    let second = rd.next().unwrap().ok().unwrap();
    assert_eq!(second.path(), b"/etc/conf".to_vec());
    assert_eq!(second.file_name(), b"conf".to_vec());
    assert!(second.file_type().ok().unwrap().is_dir());
    assert_eq!(rd.position(), 2);
    assert!(rd.next().is_none());
    assert!(rd.next().is_none());
    assert_eq!(rd.position(), 2);
}

#[test]
fn read_dir_builder_refuses_bad_listing() {
    let mut bad = ReadDirBuilder::new(b"/etc", b"\n");
    assert_eq!(bad.next_path(), Err(IoError::UnsupportedPlatform));
    let mut b = ReadDirBuilder::new(b"/empty", b"");
    assert_eq!(b.next_path(), Ok(None));
    let mut rd = b.finish();
    assert!(rd.next().is_none());
}
