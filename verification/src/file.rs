use vstd::prelude::*;

use crate::attr::{FileAttr, FilePermissions, FileTimes};
use crate::error::{
    status_failed, syscall_failed, syscall_len, unsupported, IoError, TryLockError,
};

verus! {

/// Open mode word asking for read-only access.
pub const OPEN_READ_ONLY: u32 = 0;

/// Open mode bit asking for write-only access.
pub const OPEN_WRITE_ONLY: u32 = 1;

/// Open mode bit asking the kernel to create a missing file.
pub const OPEN_CREATE: u32 = 2;

/// Open mode bit asking the kernel to empty the file.
pub const OPEN_TRUNCATE: u32 = 4;

/// Open mode bit asking the kernel to write at the end of the file.
pub const OPEN_APPEND: u32 = 8;

/// Most bytes that one read call moves through the kernel's bounce buffer.
pub const READ_BOUNCE_SIZE: usize = 512;

/// The six flags of an `OpenOptions`, as values.
pub struct OpenOptionsView {
    pub read: bool,
    pub write: bool,
    pub append: bool,
    pub truncate: bool,
    pub create: bool,
    pub create_new: bool,
}

/// How a file is to be opened.
#[derive(Clone, Copy, Debug)]
pub struct OpenOptions {
    read: bool,
    write: bool,
    append: bool,
    truncate: bool,
    create: bool,
    create_new: bool,
}

impl View for OpenOptions {
    type V = OpenOptionsView;

    closed spec fn view(&self) -> OpenOptionsView {
        OpenOptionsView {
            read: self.read,
            write: self.write,
            append: self.append,
            truncate: self.truncate,
            create: self.create,
            create_new: self.create_new,
        }
    }
}

/// The open mode word that the kernel is asked for, or the refusal, for the
/// given options. KraftOS opens a file either to read it, with no other
/// flag, or to write it, with any of create, truncate and append; it never
/// opens one for both, and never refuses to open an existing file.
pub open spec fn open_mode(o: OpenOptionsView) -> Result<u32, IoError> {
    if o.create_new || (o.read == o.write && !o.append) {
        Err(IoError::UnsupportedPlatform)
    } else if o.read {
        if o.append || o.truncate || o.create {
            Err(IoError::UnsupportedPlatform)
        } else {
            Ok(OPEN_READ_ONLY)
        }
    } else {
        Ok(
            (OPEN_WRITE_ONLY + (if o.create {
                OPEN_CREATE
            } else {
                0
            }) + (if o.truncate {
                OPEN_TRUNCATE
            } else {
                0
            }) + (if o.append {
                OPEN_APPEND
            } else {
                0
            })) as u32,
        )
    }
}

impl OpenOptions {
    /// Options with every flag clear.
    pub fn new() -> (o: OpenOptions)
        ensures
            !o@.read && !o@.write && !o@.append && !o@.truncate && !o@.create && !o@.create_new,
    {
        OpenOptions {
            read: false,
            write: false,
            append: false,
            truncate: false,
            create: false,
            create_new: false,
        }
    }

    /// Sets the read flag.
    pub fn read(&mut self, read: bool)
        ensures
            final(self)@ == (OpenOptionsView { read, ..old(self)@ }),
    {
        self.read = read;
    }

    /// Sets the write flag.
    pub fn write(&mut self, write: bool)
        ensures
            final(self)@ == (OpenOptionsView { write, ..old(self)@ }),
    {
        self.write = write;
    }

    /// Sets the append flag.
    pub fn append(&mut self, append: bool)
        ensures
            final(self)@ == (OpenOptionsView { append, ..old(self)@ }),
    {
        self.append = append;
    }

    /// Sets the truncate flag.
    pub fn truncate(&mut self, truncate: bool)
        ensures
            final(self)@ == (OpenOptionsView { truncate, ..old(self)@ }),
    {
        self.truncate = truncate;
    }

    /// Sets the create flag.
    pub fn create(&mut self, create: bool)
        ensures
            final(self)@ == (OpenOptionsView { create, ..old(self)@ }),
    {
        self.create = create;
    }

    /// Sets the create-new flag.
    pub fn create_new(&mut self, create_new: bool)
        ensures
            final(self)@ == (OpenOptionsView { create_new, ..old(self)@ }),
    {
        self.create_new = create_new;
    }

    /// The open mode word to hand to the kernel for these options.
    pub fn open_mode(&self) -> (r: Result<u32, IoError>)
        ensures
            r == open_mode(self@),
    {
        if self.create_new || self.read == self.write && !self.append {
            return unsupported();
        }
        if self.read {
            if self.append || self.truncate || self.create {
                return unsupported();
            }
            Ok(OPEN_READ_ONLY)
        } else {
            let mut flags = OPEN_WRITE_ONLY;
            if self.create {
                assert(flags | 2u32 == flags + 2) by (bit_vector)
                    requires
                        flags == 1u32,
                ;
                flags |= OPEN_CREATE;
            }
            if self.truncate {
                assert(flags | 4u32 == flags + 4) by (bit_vector)
                    requires
                        flags < 4u32,
                ;
                flags |= OPEN_TRUNCATE;
            }
            if self.append {
                assert(flags | 8u32 == flags + 8) by (bit_vector)
                    requires
                        flags < 8u32,
                ;
                flags |= OPEN_APPEND;
            }
            Ok(flags)
        }
    }
}

/// What the kernel is asked for to open a file.
#[derive(Clone, Copy, Debug, PartialEq, Eq, Structural)]
pub struct OpenRequest {
    /// The open mode word.
    pub flags: u32,
    /// The length of the path, in bytes.
    pub path_len: u32,
}

/// The descriptor of an open file and whether a short read has shown its end.
pub struct FileView {
    pub fd: u32,
    pub eof: bool,
}

/// An open file.
#[derive(Clone, Copy, Debug)]
pub struct File {
    fd: u32,
    eof: bool,
}

impl View for File {
    type V = FileView;

    closed spec fn view(&self) -> FileView {
        FileView { fd: self.fd, eof: self.eof }
    }
}

/// How many bytes a read into a buffer of `buf_len` bytes asks the kernel
/// for: none (the read gives 0 at once) for an empty buffer or once the end
/// of the file was seen, else up to `READ_BOUNCE_SIZE`.
pub open spec fn read_plan(f: FileView, buf_len: usize) -> Option<u32> {
    if buf_len == 0 || f.eof {
        None
    } else if buf_len < READ_BOUNCE_SIZE {
        Some(buf_len as u32)
    } else {
        Some(READ_BOUNCE_SIZE as u32)
    }
}

/// The file after a read call of `request` bytes brought `n` bytes: a short
/// read marks its end.
pub open spec fn after_read(f: FileView, request: u32, n: usize) -> FileView {
    FileView { fd: f.fd, eof: f.eof || n < request }
}

/// The outcome of a read call of `request` bytes that returned `status`.
pub open spec fn read_reply(request: u32, status: u32) -> Result<usize, IoError> {
    if status_failed(status) || status > request {
        Err(IoError::UnsupportedPlatform)
    } else {
        Ok(status as usize)
    }
}

/// The outcome of a write call of `len` bytes that returned `status`.
pub open spec fn write_reply(len: u32, status: u32) -> Result<usize, IoError> {
    if status_failed(status) || status > len {
        Err(IoError::UnsupportedPlatform)
    } else {
        Ok(status as usize)
    }
}

impl File {
    /// Checks the options and the path of an `open` and says what to ask the
    /// kernel for.
    pub fn open_request(path: &[u8], opts: &OpenOptions) -> (r: Result<OpenRequest, IoError>)
        ensures
            match open_mode(opts@) {
                Err(e) => r == Err::<OpenRequest, IoError>(e),
                Ok(flags) => if path@.len() <= u32::MAX {
                    r == Ok::<OpenRequest, IoError>(
                        OpenRequest { flags, path_len: path@.len() as u32 },
                    )
                } else {
                    r == Err::<OpenRequest, IoError>(IoError::UnsupportedPlatform)
                },
            },
    {
        let flags = opts.open_mode()?;
        let path_len = syscall_len(path.len())?;
        Ok(OpenRequest { flags, path_len })
    }

    /// The file that an open call returning `status` gave: its descriptor,
    /// with no end seen yet, unless the status reports failure.
    pub fn opened(status: u32) -> (r: Result<File, IoError>)
        ensures
            status_failed(status) ==> r == Err::<File, IoError>(IoError::UnsupportedPlatform),
            !status_failed(status) ==> r is Ok && r->Ok_0@ == (FileView { fd: status, eof: false }),
    {
        if syscall_failed(status) {
            return Err(IoError::UnsupportedPlatform);
        }
        Ok(File { fd: status, eof: false })
    }

    /// The kernel descriptor of the file.
    pub fn fd(&self) -> (fd: u32)
        ensures
            fd == self@.fd,
    {
        self.fd
    }

    /// How many bytes to ask the kernel for when reading into a buffer of
    /// `buf_len` bytes.
    pub fn read_request(&self, buf_len: usize) -> (r: Option<u32>)
        ensures
            r == read_plan(self@, buf_len),
    {
        if buf_len == 0 {
            return None;
        }
        if self.eof {
            return None;
        }
        let request = if buf_len < READ_BOUNCE_SIZE {
            buf_len
        } else {
            READ_BOUNCE_SIZE
        };
        Some(request as u32)
    }

    /// Finishes a read call of `request` bytes that returned `status` and left
    /// its bytes in `bounce`: copies them to the front of `buf` and notes the
    /// end of the file on a short read.
    pub fn complete_read(&mut self, request: u32, status: u32, bounce: &[u8], buf: &mut [u8]) -> (r:
        Result<usize, IoError>)
        requires
            request <= old(buf)@.len(),
            request <= bounce@.len(),
        ensures
            r == read_reply(request, status),
            match r {
                Ok(n) => {
                    &&& final(self)@ == after_read(old(self)@, request, n)
                    &&& final(buf)@ == bounce@.subrange(0, n as int) + old(buf)@.subrange(
                        n as int,
                        old(buf)@.len() as int,
                    )
                },
                Err(_) => *final(self) == *old(self) && final(buf)@ == old(buf)@,
            },
    {
        if syscall_failed(status) {
            return Err(IoError::UnsupportedPlatform);
        }
        if status > request {
            return Err(IoError::UnsupportedPlatform);
        }
        let read = status as usize;
        if status < request {
            self.eof = true;
        }
        let mut i: usize = 0;
        while i < read
            invariant
                read <= request <= old(buf)@.len(),
                request <= bounce@.len(),
                i <= read,
                buf@.len() == old(buf)@.len(),
                forall|j: int| 0 <= j < i ==> buf@[j] == bounce@[j],
                forall|j: int| i <= j < buf@.len() ==> buf@[j] == old(buf)@[j],
            decreases read - i,
        {
            buf[i] = bounce[i];
            i = i + 1;
        }
        assert(buf@ =~= bounce@.subrange(0, read as int) + old(buf)@.subrange(
            read as int,
            old(buf)@.len() as int,
        ));
        Ok(read)
    }

    /// Plans a read into several buffers of lengths `lens`: it is the read
    /// into the first one that is not empty, or, where all are empty, a read
    /// into an empty buffer, which asks the kernel for nothing. Gives that
    /// buffer and the count to ask for, or `None` (the read gives 0 at once).
    pub fn read_vectored_request(&self, lens: &[usize]) -> (r: Option<(usize, u32)>)
        ensures
            r is None <==> (self@.eof || forall|j: int| 0 <= j < lens@.len() ==> lens@[j] == 0),
            r is Some ==> {
                &&& is_first_nonempty(lens@, Some(r->Some_0.0))
                &&& read_plan(self@, lens@[r->Some_0.0 as int]) == Some(r->Some_0.1)
            },
    {
        let chosen = first_nonempty(lens);
        match chosen {
            Some(i) => match self.read_request(lens[i]) {
                Some(request) => Some((i, request)),
                None => None,
            },
            None => None,
        }
    }

    /// Plans a write from several buffers of lengths `lens`: it is the write
    /// of the first one that is not empty, or, where all are empty, the write
    /// of an empty buffer. Gives that buffer and the length to hand to the
    /// write call.
    pub fn write_vectored_request(lens: &[usize]) -> (r: (Option<usize>, Result<u32, IoError>))
        ensures
            is_first_nonempty(lens@, r.0),
            r.0 is None ==> r.1 == Ok::<u32, IoError>(0),
            r.0 is Some ==> {
                let len = lens@[r.0->Some_0 as int];
                &&& len <= u32::MAX ==> r.1 == Ok::<u32, IoError>(len as u32)
                &&& len > u32::MAX ==> r.1 == Err::<u32, IoError>(IoError::UnsupportedPlatform)
            },
    {
        let chosen = first_nonempty(lens);
        match chosen {
            Some(i) => (chosen, Self::write_request(lens[i])),
            None => (chosen, Self::write_request(0)),
        }
    }

    /// The length to hand to a write call for a buffer of `buf_len` bytes.
    pub fn write_request(buf_len: usize) -> (r: Result<u32, IoError>)
        ensures
            buf_len <= u32::MAX ==> r == Ok::<u32, IoError>(buf_len as u32),
            buf_len > u32::MAX ==> r == Err::<u32, IoError>(IoError::UnsupportedPlatform),
    {
        syscall_len(buf_len)
    }

    /// Finishes a write call of `len` bytes that returned `status`: the count
    /// of bytes written, which is never more than asked for.
    pub fn complete_write(len: u32, status: u32) -> (r: Result<usize, IoError>)
        ensures
            r == write_reply(len, status),
    {
        if syscall_failed(status) {
            return Err(IoError::UnsupportedPlatform);
        }
        if status > len {
            return Err(IoError::UnsupportedPlatform);
        }
        Ok(status as usize)
    }

    /// Attributes of an open file; not offered by KraftOS.
    pub fn file_attr(&self) -> (r: Result<FileAttr, IoError>)
        ensures
            r == Err::<FileAttr, IoError>(IoError::UnsupportedPlatform),
    {
        unsupported()
    }

    /// Flushes the file to storage; not offered by KraftOS.
    pub fn fsync(&self) -> (r: Result<(), IoError>)
        ensures
            r == Err::<(), IoError>(IoError::UnsupportedPlatform),
    {
        unsupported()
    }

    /// Flushes the file's data to storage; not offered by KraftOS.
    pub fn datasync(&self) -> (r: Result<(), IoError>)
        ensures
            r == Err::<(), IoError>(IoError::UnsupportedPlatform),
    {
        unsupported()
    }

    /// Takes an exclusive lock; not offered by KraftOS.
    pub fn lock(&self) -> (r: Result<(), IoError>)
        ensures
            r == Err::<(), IoError>(IoError::UnsupportedPlatform),
    {
        unsupported()
    }

    /// Takes a shared lock; not offered by KraftOS.
    pub fn lock_shared(&self) -> (r: Result<(), IoError>)
        ensures
            r == Err::<(), IoError>(IoError::UnsupportedPlatform),
    {
        unsupported()
    }

    /// Tries an exclusive lock; not offered by KraftOS.
    pub fn try_lock(&self) -> (r: Result<(), TryLockError>)
        ensures
            r == Err::<(), TryLockError>(TryLockError::Error(IoError::UnsupportedPlatform)),
    {
        Err(TryLockError::Error(IoError::UnsupportedPlatform))
    }

    /// Tries a shared lock; not offered by KraftOS.
    pub fn try_lock_shared(&self) -> (r: Result<(), TryLockError>)
        ensures
            r == Err::<(), TryLockError>(TryLockError::Error(IoError::UnsupportedPlatform)),
    {
        Err(TryLockError::Error(IoError::UnsupportedPlatform))
    }

    /// Releases a lock; not offered by KraftOS.
    pub fn unlock(&self) -> (r: Result<(), IoError>)
        ensures
            r == Err::<(), IoError>(IoError::UnsupportedPlatform),
    {
        unsupported()
    }

    /// Sets the file's length; not offered by KraftOS.
    pub fn truncate(&self, _size: u64) -> (r: Result<(), IoError>)
        ensures
            r == Err::<(), IoError>(IoError::UnsupportedPlatform),
    {
        unsupported()
    }

    /// Whether reads into several buffers are done at once; they are not.
    pub fn is_read_vectored(&self) -> (r: bool)
        ensures
            r == false,
    {
        false
    }

    /// Whether writes from several buffers are done at once; they are not.
    pub fn is_write_vectored(&self) -> (r: bool)
        ensures
            r == false,
    {
        false
    }

    /// Flushes buffered writes; there are none, so this always succeeds.
    pub fn flush(&self) -> (r: Result<(), IoError>)
        ensures
            r == Ok::<(), IoError>(()),
    {
        Ok(())
    }

    /// Moves the file position; not offered by KraftOS.
    pub fn seek(&self, _pos: SeekFrom) -> (r: Result<u64, IoError>)
        ensures
            r == Err::<u64, IoError>(IoError::UnsupportedPlatform),
    {
        unsupported()
    }

    /// The file's size, where known cheaply; it never is.
    pub fn size(&self) -> (r: Option<Result<u64, IoError>>)
        ensures
            r == None::<Result<u64, IoError>>,
    {
        None
    }

    /// The file position; not offered by KraftOS.
    pub fn tell(&self) -> (r: Result<u64, IoError>)
        ensures
            r == Err::<u64, IoError>(IoError::UnsupportedPlatform),
    {
        unsupported()
    }

    /// A second handle on the file; not offered by KraftOS.
    pub fn duplicate(&self) -> (r: Result<File, IoError>)
        ensures
            r == Err::<File, IoError>(IoError::UnsupportedPlatform),
    {
        unsupported()
    }

    /// Changes the file's permissions; not offered by KraftOS.
    pub fn set_permissions(&self, _perm: FilePermissions) -> (r: Result<(), IoError>)
        ensures
            r == Err::<(), IoError>(IoError::UnsupportedPlatform),
    {
        unsupported()
    }

    /// Changes the file's times; not offered by KraftOS.
    pub fn set_times(&self, _times: FileTimes) -> (r: Result<(), IoError>)
        ensures
            r == Err::<(), IoError>(IoError::UnsupportedPlatform),
    {
        unsupported()
    }
}

/// A position to seek to.
#[derive(Clone, Copy, Debug, PartialEq, Eq, Structural)]
pub enum SeekFrom {
    Start(u64),
    End(i64),
    Current(i64),
}

/// Whether `r` names the first buffer that is not empty among buffers of
/// lengths `lens`, or `None` where all are empty.
pub open spec fn is_first_nonempty(lens: Seq<usize>, r: Option<usize>) -> bool {
    match r {
        Some(i) => i < lens.len() && lens[i as int] != 0 && forall|j: int|
            0 <= j < i ==> lens[j] == 0,
        None => forall|j: int| 0 <= j < lens.len() ==> lens[j] == 0,
    }
}

/// The buffer that a read into several buffers, or a write from several,
/// uses when the platform moves one buffer per call: the first one that is
/// not empty, given the buffers' lengths.
pub fn first_nonempty(lens: &[usize]) -> (r: Option<usize>)
    ensures
        is_first_nonempty(lens@, r),
{
    let mut i: usize = 0;
    while i < lens.len()
        invariant
            i <= lens@.len(),
            forall|j: int| 0 <= j < i ==> lens@[j] == 0,
        decreases lens@.len() - i,
    {
        if lens[i] != 0 {
            return Some(i);
        }
        i = i + 1;
    }
    None
}

/// Builds directories; KraftOS cannot make one.
#[derive(Debug)]
pub struct DirBuilder {}

impl DirBuilder {
    /// A directory builder.
    pub fn new() -> (b: DirBuilder) {
        DirBuilder {  }
    }

    /// Makes a directory; not offered by KraftOS.
    pub fn mkdir(&self, _p: &[u8]) -> (r: Result<(), IoError>)
        ensures
            r == Err::<(), IoError>(IoError::UnsupportedPlatform),
    {
        unsupported()
    }
}

/// Once a read has come back short, the end of the file stays seen and
/// every later read gives 0 without asking the kernel; no read brings more
/// than it asked for, nor more than `READ_BOUNCE_SIZE` bytes or the buffer
/// holds.
pub proof fn lemma_read_end_is_sticky(
    f: FileView,
    buf_len: usize,
    status: u32,
    later_len: usize,
)
    requires
        read_plan(f, buf_len) is Some,
        read_reply(read_plan(f, buf_len)->Some_0, status) is Ok,
    ensures
        ({
            let request = read_plan(f, buf_len)->Some_0;
            let n = read_reply(request, status)->Ok_0;
            &&& n <= request <= READ_BOUNCE_SIZE
            &&& n <= buf_len
            &&& n < request ==> read_plan(after_read(f, request, n), later_len) is None
            &&& f.eof ==> after_read(f, request, n).eof
        }),
{
}

/// The open mode word of an accepted set of options encodes them: read-only
/// access with no other flag, or write access with one bit each for create,
/// truncate and append.
pub proof fn lemma_open_mode_encodes_options(o: OpenOptionsView)
    requires
        open_mode(o) is Ok,
    ensures
        !o.create_new,
        o.read ==> open_mode(o)->Ok_0 == OPEN_READ_ONLY && !o.write && !o.append && !o.truncate
            && !o.create,
        !o.read ==> {
            let m = open_mode(o)->Ok_0;
            &&& o.write || o.append
            &&& m % 2 == 1
            &&& (m / 2) % 2 == (if o.create {
                1int
            } else {
                0
            })
            &&& (m / 4) % 2 == (if o.truncate {
                1int
            } else {
                0
            })
            &&& (m / 8) % 2 == (if o.append {
                1int
            } else {
                0
            })
        },
{
}

/// A read reply is an error exactly when the kernel's status has its top
/// bit set or claims more bytes than were asked for; otherwise it is the
/// count the kernel gave, zero included.
pub proof fn lemma_read_reply_exact(request: u32, status: u32)
    ensures
        status < 0x8000_0000u32 && status <= request ==> read_reply(request, status) == Ok::<
            usize,
            IoError,
        >(status as usize),
        !(status < 0x8000_0000u32 && status <= request) ==> read_reply(request, status) == Err::<
            usize,
            IoError,
        >(IoError::UnsupportedPlatform),
{
}

/// A write reply is an error exactly when the kernel's status has its top
/// bit set or claims more bytes than were handed over; otherwise it is the
/// count the kernel wrote, zero included.
pub proof fn lemma_write_reply_exact(len: u32, status: u32)
    ensures
        status < 0x8000_0000u32 && status <= len ==> write_reply(len, status) == Ok::<
            usize,
            IoError,
        >(status as usize),
        !(status < 0x8000_0000u32 && status <= len) ==> write_reply(len, status) == Err::<
            usize,
            IoError,
        >(IoError::UnsupportedPlatform),
{
}

/// A read asks the kernel for nothing on an empty buffer or once the end was
/// seen; otherwise it asks for the buffer's length, at most 512 bytes. A
/// read marks the end exactly when it was already seen or came back short,
/// and never changes the descriptor.
pub proof fn lemma_read_plan_exact(f: FileView, buf_len: usize, request: u32, n: usize)
    ensures
        buf_len == 0 || f.eof ==> read_plan(f, buf_len) == None::<u32>,
        buf_len > 0 && !f.eof && buf_len <= 512 ==> read_plan(f, buf_len) == Some(buf_len as u32),
        buf_len > 512 && !f.eof ==> read_plan(f, buf_len) == Some(512u32),
        after_read(f, request, n).eof == (f.eof || n < request),
        after_read(f, request, n).fd == f.fd,
{
}

/// Which options are opened, and how: read-only access with no other flag
/// gives mode 0; write access (asked for by write or append) without
/// create-new and without read gives 1, plus 2 for create, 4 for truncate
/// and 8 for append; every other set of options is refused.
pub proof fn lemma_open_mode_exact(o: OpenOptionsView)
    ensures
        !o.create_new && !o.read && (o.write || o.append) ==> open_mode(o) == Ok::<u32, IoError>(
            (1 + (if o.create {
                2int
            } else {
                0
            }) + (if o.truncate {
                4int
            } else {
                0
            }) + (if o.append {
                8int
            } else {
                0
            })) as u32,
        ),
        !o.create_new && o.read && !o.write && !o.append && !o.truncate && !o.create ==> open_mode(o)
            == Ok::<u32, IoError>(0u32),
        !(!o.create_new && !o.read && (o.write || o.append)) && !(!o.create_new && o.read
            && !o.write && !o.append && !o.truncate && !o.create) ==> open_mode(o) == Err::<
            u32,
            IoError,
        >(IoError::UnsupportedPlatform),
{
}

} // verus!
