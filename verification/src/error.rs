use vstd::prelude::*;

verus! {

/// The errors that the KraftOS platform layer reports.
#[derive(Clone, Copy, Debug, PartialEq, Eq, Structural)]
pub enum IoError {
    /// The kernel refused the request, or the operation does not exist on
    /// this platform ("operation not supported on this platform").
    UnsupportedPlatform,
    /// `read_exact` ran out of input ("failed to fill whole buffer").
    ReadExactEof,
    /// A write stored fewer bytes than asked ("failed to write whole buffer").
    WriteAllEof,
}

/// The error of a non-blocking lock attempt.
#[derive(Clone, Copy, Debug, PartialEq, Eq, Structural)]
pub enum TryLockError {
    /// The attempt failed for another reason.
    Error(IoError),
    /// The lock is held elsewhere.
    WouldBlock,
}

/// The answer to every operation that KraftOS does not offer.
pub fn unsupported<T>() -> (r: Result<T, IoError>)
    ensures
        r == Err::<T, IoError>(IoError::UnsupportedPlatform),
{
    Err(IoError::UnsupportedPlatform)
}

/// A kernel status word reports failure when its top bit is set.
pub open spec fn status_failed(status: u32) -> bool {
    status >= 0x8000_0000
}

/// Tells whether a status word returned by a K16 system call marks a failure.
pub fn syscall_failed(status: u32) -> (failed: bool)
    ensures
        failed == status_failed(status),
{
    assert((status & 0x8000_0000u32 != 0) == (status >= 0x8000_0000u32)) by (bit_vector);
    status & 0x8000_0000 != 0
}

/// The length of a buffer as the `u32` that a system call takes, refused
/// where it does not fit.
pub fn syscall_len(len: usize) -> (r: Result<u32, IoError>)
    ensures
        len <= u32::MAX ==> r == Ok::<u32, IoError>(len as u32),
        len > u32::MAX ==> r == Err::<u32, IoError>(IoError::UnsupportedPlatform),
{
    if len as u64 <= 0xffff_ffffu64 {
        Ok(len as u32)
    } else {
        Err(IoError::UnsupportedPlatform)
    }
}

} // verus!
