use vstd::prelude::*;

use crate::bytes::{le_u32_at, read_u32_le};
use crate::error::{status_failed, syscall_failed, unsupported, IoError};

verus! {

/// Kind word of a regular file in the kernel's metadata record.
pub const FILE_TYPE_REGULAR: u32 = 1;

/// Kind word of a directory in the kernel's metadata record.
pub const FILE_TYPE_DIRECTORY: u32 = 2;

/// The bit of a packed attribute word that marks a directory; the bits below
/// it hold the size.
pub const FILE_ATTR_DIRECTORY_BIT: u32 = 0x0100_0000;

/// Length of the metadata record that the stat call fills in.
pub const STAT_METADATA_BYTES: usize = 16;

/// Longest path, in bytes, that the stat and directory calls accept.
pub const MAX_READ_DIR_PATH_BYTES: usize = 228;

/// A point in time. KraftOS keeps no file times, so the file system never
/// hands one out.
#[derive(Clone, Copy, Debug, PartialEq, Eq, Structural)]
pub struct SystemTime {
    pub secs: u64,
    pub nanos: u32,
}

/// Metadata of a file: its kind and size packed into one word, the
/// directory bit above a 24-bit size.
#[derive(Clone, Copy, Debug)]
pub struct FileAttr {
    packed: u32,
}

/// The size that a packed attribute word records.
pub open spec fn packed_size(packed: u32) -> int {
    if packed >= FILE_ATTR_DIRECTORY_BIT {
        packed - FILE_ATTR_DIRECTORY_BIT
    } else {
        packed as int
    }
}

/// The kind word that a packed attribute word records.
pub open spec fn packed_kind(packed: u32) -> u32 {
    if packed >= FILE_ATTR_DIRECTORY_BIT {
        FILE_TYPE_DIRECTORY
    } else {
        FILE_TYPE_REGULAR
    }
}

/// The packed attribute word of a file of kind `kind` and size `size`.
pub open spec fn pack_attr(kind: u32, size: u32) -> u32 {
    if kind == FILE_TYPE_DIRECTORY {
        (size + FILE_ATTR_DIRECTORY_BIT) as u32
    } else {
        size
    }
}

impl View for FileAttr {
    type V = u32;

    closed spec fn view(&self) -> u32 {
        self.packed
    }
}

/// Kind of a file.
#[derive(Clone, Copy, Debug, PartialEq, Eq, Structural, Hash)]
pub struct FileType {
    kind: u32,
}

impl FileType {
    /// A file is a regular file or a directory.
    #[verifier::type_invariant]
    pub closed spec fn kind_known(self) -> bool {
        self.kind == FILE_TYPE_REGULAR || self.kind == FILE_TYPE_DIRECTORY
    }

    /// The invariant of a kind says that it is a regular file's or a
    /// directory's.
    pub proof fn lemma_kind_known(t: FileType)
        requires
            t.kind_known(),
        ensures
            t@ == FILE_TYPE_REGULAR || t@ == FILE_TYPE_DIRECTORY,
    {
    }
}

impl View for FileType {
    type V = u32;

    closed spec fn view(&self) -> u32 {
        self.kind
    }
}

/// Permissions of a file: only the read-only flag.
#[derive(Clone, Copy, Debug, PartialEq, Eq, Structural)]
pub struct FilePermissions {
    readonly: bool,
}

impl View for FilePermissions {
    type V = bool;

    closed spec fn view(&self) -> bool {
        self.readonly
    }
}

/// File times to set; KraftOS records none, so setting them keeps nothing.
#[derive(Copy, Clone, Debug, Default)]
pub struct FileTimes {}

impl FileAttr {
    /// Size of the file in bytes.
    pub fn size(&self) -> (s: u64)
        ensures
            s == packed_size(self@),
    {
        let size = if self.packed >= FILE_ATTR_DIRECTORY_BIT {
            self.packed - FILE_ATTR_DIRECTORY_BIT
        } else {
            self.packed
        };
        size as u64
    }

    /// Permissions of the file; KraftOS marks no file read-only.
    pub fn perm(&self) -> (p: FilePermissions)
        ensures
            p@ == false,
    {
        FilePermissions { readonly: false }
    }

    /// Kind of the file: a directory where the directory bit is set, else a
    /// regular file.
    pub fn file_type(&self) -> (t: FileType)
        ensures
            t@ == packed_kind(self@),
    {
        let kind = if self.packed >= FILE_ATTR_DIRECTORY_BIT {
            FILE_TYPE_DIRECTORY
        } else {
            FILE_TYPE_REGULAR
        };
        FileType { kind }
    }

    /// Last modification time; not kept on KraftOS.
    pub fn modified(&self) -> (r: Result<SystemTime, IoError>)
        ensures
            r == Err::<SystemTime, IoError>(IoError::UnsupportedPlatform),
    {
        unsupported()
    }

    /// Last access time; not kept on KraftOS.
    pub fn accessed(&self) -> (r: Result<SystemTime, IoError>)
        ensures
            r == Err::<SystemTime, IoError>(IoError::UnsupportedPlatform),
    {
        unsupported()
    }

    /// Creation time; not kept on KraftOS.
    pub fn created(&self) -> (r: Result<SystemTime, IoError>)
        ensures
            r == Err::<SystemTime, IoError>(IoError::UnsupportedPlatform),
    {
        unsupported()
    }
}

/// Two permission values are equal exactly when their read-only flags are.
pub proof fn lemma_permissions_eq(p: FilePermissions, q: FilePermissions)
    ensures
        (p == q) == (p@ == q@),
{
}

impl FilePermissions {
    /// Whether the permissions forbid writing.
    pub fn readonly(&self) -> (r: bool)
        ensures
            r == self@,
    {
        self.readonly
    }

    /// Sets the read-only flag.
    pub fn set_readonly(&mut self, readonly: bool)
        ensures
            final(self)@ == readonly,
    {
        self.readonly = readonly;
    }
}

impl FileTimes {
    /// Records an access time; KraftOS keeps none, so nothing changes.
    pub fn set_accessed(&mut self, _t: SystemTime)
        ensures
            *final(self) == *old(self),
    {
    }

    /// Records a modification time; KraftOS keeps none, so nothing changes.
    pub fn set_modified(&mut self, _t: SystemTime)
        ensures
            *final(self) == *old(self),
    {
    }
}

impl FileType {
    /// Whether this is a directory.
    pub fn is_dir(&self) -> (r: bool)
        ensures
            r == (self@ == FILE_TYPE_DIRECTORY),
            r == (self@ != FILE_TYPE_REGULAR),
    {
        proof {
            use_type_invariant(self);
        }
        self.kind == FILE_TYPE_DIRECTORY
    }

    /// Whether this is a regular file.
    pub fn is_file(&self) -> (r: bool)
        ensures
            r == (self@ == FILE_TYPE_REGULAR),
            r == (self@ != FILE_TYPE_DIRECTORY),
    {
        proof {
            use_type_invariant(self);
        }
        self.kind == FILE_TYPE_REGULAR
    }

    /// Whether this is a symbolic link; KraftOS has none.
    pub fn is_symlink(&self) -> (r: bool)
        ensures
            r == false,
    {
        false
    }
}

/// Checks a path handed to the stat or directory call: it must be neither
/// empty nor longer than `MAX_READ_DIR_PATH_BYTES`. Gives its length.
pub fn check_path(path: &[u8]) -> (r: Result<u32, IoError>)
    ensures
        (path@.len() == 0 || path@.len() > MAX_READ_DIR_PATH_BYTES) ==> r == Err::<u32, IoError>(
            IoError::UnsupportedPlatform,
        ),
        (0 < path@.len() <= MAX_READ_DIR_PATH_BYTES) ==> r == Ok::<u32, IoError>(
            path@.len() as u32,
        ),
{
    if path.len() == 0 || path.len() > MAX_READ_DIR_PATH_BYTES {
        return Err(IoError::UnsupportedPlatform);
    }
    Ok(path.len() as u32)
}

/// What a stat call's reply means: the error, or the attributes that the
/// metadata record (kind word at offset 0, size word at offset 4) describes.
pub open spec fn stat_reply_result(status: u32, metadata: Seq<u8>) -> Result<u32, IoError> {
    let kind = le_u32_at(metadata, 0);
    let size = le_u32_at(metadata, 4);
    if status_failed(status) {
        Err(IoError::UnsupportedPlatform)
    } else if kind != FILE_TYPE_REGULAR && kind != FILE_TYPE_DIRECTORY {
        Err(IoError::UnsupportedPlatform)
    } else if size >= FILE_ATTR_DIRECTORY_BIT {
        Err(IoError::UnsupportedPlatform)
    } else {
        Ok(pack_attr(kind as u32, size as u32))
    }
}

/// Turns the reply of a stat call (its status word and the metadata record
/// it filled in) into file attributes.
pub fn decode_stat(status: u32, metadata: &[u8]) -> (r: Result<FileAttr, IoError>)
    requires
        metadata@.len() == STAT_METADATA_BYTES,
    ensures
        match stat_reply_result(status, metadata@) {
            Ok(packed) => r is Ok && r->Ok_0@ == packed,
            Err(e) => r == Err::<FileAttr, IoError>(e),
        },
{
    if syscall_failed(status) {
        return Err(IoError::UnsupportedPlatform);
    }
    let kind = read_u32_le(metadata, 0);
    if kind != FILE_TYPE_REGULAR && kind != FILE_TYPE_DIRECTORY {
        return Err(IoError::UnsupportedPlatform);
    }
    let size = read_u32_le(metadata, 4);
    if size >= FILE_ATTR_DIRECTORY_BIT {
        return Err(IoError::UnsupportedPlatform);
    }
    let packed = if kind == FILE_TYPE_DIRECTORY {
        size + FILE_ATTR_DIRECTORY_BIT
    } else {
        size
    };
    Ok(FileAttr { packed })
}

/// The attributes packed from a kind and a size below the directory bit give
/// that size and kind back.
pub proof fn lemma_pack_attr_round_trip(kind: u32, size: u32)
    requires
        kind == FILE_TYPE_REGULAR || kind == FILE_TYPE_DIRECTORY,
        size < FILE_ATTR_DIRECTORY_BIT,
    ensures
        packed_size(pack_attr(kind, size)) == size,
        packed_kind(pack_attr(kind, size)) == kind,
{
}

/// A successful stat reply yields attributes whose size and kind are the
/// size and kind words of the metadata record.
pub proof fn lemma_stat_reply_reports_metadata(status: u32, metadata: Seq<u8>)
    requires
        metadata.len() == STAT_METADATA_BYTES,
        stat_reply_result(status, metadata) is Ok,
    ensures
        packed_size(stat_reply_result(status, metadata)->Ok_0) == le_u32_at(metadata, 4),
        packed_kind(stat_reply_result(status, metadata)->Ok_0) == le_u32_at(metadata, 0),
        !status_failed(status),
{
}

/// Every file's attributes name it either a directory or a regular file,
/// never both.
pub proof fn lemma_file_kind_is_dir_or_file(packed: u32)
    ensures
        packed_kind(packed) == FILE_TYPE_DIRECTORY || packed_kind(packed) == FILE_TYPE_REGULAR,
        packed_kind(packed) != FILE_TYPE_DIRECTORY || packed_kind(packed) != FILE_TYPE_REGULAR,
{
}

/// A stat reply is accepted exactly when the status's top bit is clear, the
/// little-endian kind word at offset 0 is 1 (regular file) or 2
/// (directory) and the size word at offset 4 is below `0x0100_0000`; the
/// attributes then pack the size, with `0x0100_0000` added for a directory.
pub proof fn lemma_stat_reply_exact(status: u32, metadata: Seq<u8>)
    requires
        metadata.len() == 16,
    ensures
        ({
            let kind = metadata[0] as int + 256 * metadata[1] as int + 65536 * metadata[2] as int
                + 16777216 * metadata[3] as int;
            let size = metadata[4] as int + 256 * metadata[5] as int + 65536 * metadata[6] as int
                + 16777216 * metadata[7] as int;
            &&& status < 0x8000_0000u32 && (kind == 1 || kind == 2) && size < 0x0100_0000 ==> {
                &&& stat_reply_result(status, metadata) == Ok::<u32, IoError>(
                    (if kind == 2 {
                        size + 0x0100_0000
                    } else {
                        size
                    }) as u32,
                )
                &&& packed_size(stat_reply_result(status, metadata)->Ok_0) == size
                &&& packed_kind(stat_reply_result(status, metadata)->Ok_0) == kind
            }
            &&& !(status < 0x8000_0000u32 && (kind == 1 || kind == 2) && size < 0x0100_0000)
                ==> stat_reply_result(status, metadata) == Err::<u32, IoError>(
                IoError::UnsupportedPlatform,
            )
        }),
{
}

} // verus!
