use vstd::prelude::*;

use crate::error::{status_failed, syscall_failed, IoError};

verus! {

/// Descriptor of standard output.
pub const FD_STDOUT: u32 = 1;

/// Descriptor of standard error.
pub const FD_STDERR: u32 = 2;

/// Size of the buffer in front of standard input: none.
pub const STDIN_BUF_SIZE: usize = 0;

/// Standard input of a KraftOS program, which is always empty.
pub struct Stdin;

/// Standard output of a KraftOS program; standard error is the same kind.
pub struct Stdout;

/// Standard error of a KraftOS program.
pub type Stderr = Stdout;

impl Stdin {
    /// The standard input handle.
    pub fn new() -> (s: Stdin) {
        Stdin
    }

    /// Reads into `buf`: there is never anything to read.
    pub fn read(&mut self, buf: &mut [u8]) -> (r: Result<usize, IoError>)
        ensures
            r == Ok::<usize, IoError>(0),
            final(buf)@ == old(buf)@,
    {
        Ok(0)
    }

    /// Reads into several buffers: there is never anything to read.
    pub fn read_vectored(&mut self, bufs: &mut [Vec<u8>]) -> (r: Result<usize, IoError>)
        ensures
            r == Ok::<usize, IoError>(0),
            final(bufs)@ == old(bufs)@,
    {
        Ok(0)
    }

    /// Whether reads into several buffers are done at once; they are not.
    pub fn is_read_vectored(&self) -> (r: bool)
        ensures
            r == false,
    {
        false
    }

    /// Fills `buf` completely: fails unless `buf` is empty.
    pub fn read_exact(&mut self, buf: &mut [u8]) -> (r: Result<(), IoError>)
        ensures
            old(buf)@.len() != 0 ==> r == Err::<(), IoError>(IoError::ReadExactEof),
            old(buf)@.len() == 0 ==> r == Ok::<(), IoError>(()),
            final(buf)@ == old(buf)@,
    {
        if buf.len() != 0 {
            Err(IoError::ReadExactEof)
        } else {
            Ok(())
        }
    }

    /// Fills a cursor of `capacity` free bytes completely: fails unless it
    /// has none.
    pub fn read_buf_exact(&mut self, capacity: usize) -> (r: Result<(), IoError>)
        ensures
            capacity != 0 ==> r == Err::<(), IoError>(IoError::ReadExactEof),
            capacity == 0 ==> r == Ok::<(), IoError>(()),
    {
        if capacity != 0 {
            Err(IoError::ReadExactEof)
        } else {
            Ok(())
        }
    }

    /// Reads all that remains onto the end of `buf`: nothing.
    pub fn read_to_end(&mut self, buf: &mut Vec<u8>) -> (r: Result<usize, IoError>)
        ensures
            r == Ok::<usize, IoError>(0),
            final(buf)@ == old(buf)@,
    {
        Ok(0)
    }

    /// Reads all that remains onto the end of `buf`: nothing.
    pub fn read_to_string(&mut self, buf: &mut String) -> (r: Result<usize, IoError>)
        ensures
            r == Ok::<usize, IoError>(0),
            final(buf)@ == old(buf)@,
    {
        Ok(0)
    }
}

/// What to ask the kernel for to write a buffer of `buf_len` bytes to a
/// descriptor: nothing for an empty buffer, else its length as a `u32`.
pub open spec fn fd_write_plan(buf_len: usize) -> Result<Option<u32>, IoError> {
    if buf_len == 0 {
        Ok(None)
    } else if buf_len > u32::MAX {
        Err(IoError::UnsupportedPlatform)
    } else {
        Ok(Some(buf_len as u32))
    }
}

/// The outcome of a write call to a descriptor of all `len` bytes of a
/// buffer that returned `status`: the whole buffer or an error.
pub open spec fn fd_write_reply(len: u32, status: u32) -> Result<usize, IoError> {
    if status_failed(status) {
        Err(IoError::UnsupportedPlatform)
    } else if status != len {
        Err(IoError::WriteAllEof)
    } else {
        Ok(len as usize)
    }
}

/// Plans the write of a buffer of `buf_len` bytes to a descriptor.
pub fn fd_write_request(buf_len: usize) -> (r: Result<Option<u32>, IoError>)
    ensures
        r == fd_write_plan(buf_len),
{
    if buf_len == 0 {
        return Ok(None);
    }
    if buf_len as u64 > 0xffff_ffffu64 {
        return Err(IoError::UnsupportedPlatform);
    }
    Ok(Some(buf_len as u32))
}

/// Finishes a write call to a descriptor of `len` bytes that returned
/// `status`: a short write is an error, never a partial count.
pub fn complete_fd_write(len: u32, status: u32) -> (r: Result<usize, IoError>)
    ensures
        r == fd_write_reply(len, status),
{
    if syscall_failed(status) {
        return Err(IoError::UnsupportedPlatform);
    }
    if status != len {
        return Err(IoError::WriteAllEof);
    }
    Ok(len as usize)
}

/// One step of writing several buffers to a descriptor, one call each: the
/// running count after the write of the next buffer came back with `reply`.
/// The first failure ends the whole write with that error.
pub fn write_vectored_step(written: usize, reply: Result<usize, IoError>) -> (r: Result<
    usize,
    IoError,
>)
    requires
        reply is Ok ==> written + reply->Ok_0 <= usize::MAX,
    ensures
        reply is Err ==> r == reply,
        reply is Ok ==> r == Ok::<usize, IoError>((written + reply->Ok_0) as usize),
{
    match reply {
        Ok(n) => Ok(written + n),
        Err(e) => Err(e),
    }
}

impl Stdout {
    /// The standard output handle.
    pub fn new() -> (s: Stdout) {
        Stdout
    }

    /// The descriptor that this handle writes to.
    pub fn fd(&self) -> (fd: u32)
        ensures
            fd == FD_STDOUT,
    {
        FD_STDOUT
    }

    /// Whether writes from several buffers are done at once; they are.
    pub fn is_write_vectored(&self) -> (r: bool)
        ensures
            r == true,
    {
        true
    }

    /// Flushes buffered output; there is none, so this always succeeds.
    pub fn flush(&mut self) -> (r: Result<(), IoError>)
        ensures
            r == Ok::<(), IoError>(()),
    {
        Ok(())
    }
}

/// Whether an error means that standard I/O is closed; on KraftOS it never
/// does.
pub fn is_ebadf(_err: &IoError) -> (r: bool)
    ensures
        r == false,
{
    false
}

/// Where panic messages go besides standard error: nowhere.
pub fn panic_output() -> (r: Option<Vec<u8>>)
    ensures
        r is None,
{
    None
}

/// A write to a descriptor asks nothing of the kernel for an empty buffer
/// and hands over the whole length otherwise; it succeeds, with the whole
/// length, exactly when the status's top bit is clear and the kernel wrote
/// every byte; a failed status is refused as unsupported and a short write
/// as a write that stopped early.
pub proof fn lemma_fd_write_exact(buf_len: usize, len: u32, status: u32)
    ensures
        buf_len == 0 ==> fd_write_plan(buf_len) == Ok::<Option<u32>, IoError>(None),
        0 < buf_len <= 0xffff_ffff ==> fd_write_plan(buf_len) == Ok::<Option<u32>, IoError>(
            Some(buf_len as u32),
        ),
        status >= 0x8000_0000u32 ==> fd_write_reply(len, status) == Err::<usize, IoError>(
            IoError::UnsupportedPlatform,
        ),
        status < 0x8000_0000u32 && status != len ==> fd_write_reply(len, status) == Err::<
            usize,
            IoError,
        >(IoError::WriteAllEof),
        status < 0x8000_0000u32 && status == len ==> fd_write_reply(len, status) == Ok::<
            usize,
            IoError,
        >(len as usize),
{
}

} // verus!
