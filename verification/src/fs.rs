use vstd::prelude::*;

use crate::attr::{FilePermissions, FileTimes};
use crate::error::{unsupported, IoError};

verus! {

/// Removes a file; not offered by KraftOS.
pub fn unlink(_p: &[u8]) -> (r: Result<(), IoError>)
    ensures
        r == Err::<(), IoError>(IoError::UnsupportedPlatform),
{
    unsupported()
}

/// Renames a file; not offered by KraftOS.
pub fn rename(_old: &[u8], _new: &[u8]) -> (r: Result<(), IoError>)
    ensures
        r == Err::<(), IoError>(IoError::UnsupportedPlatform),
{
    unsupported()
}

/// Changes a file's permissions; not offered by KraftOS.
pub fn set_perm(_p: &[u8], _perm: FilePermissions) -> (r: Result<(), IoError>)
    ensures
        r == Err::<(), IoError>(IoError::UnsupportedPlatform),
{
    unsupported()
}

/// Changes a file's times; not offered by KraftOS.
pub fn set_times(_p: &[u8], _times: FileTimes) -> (r: Result<(), IoError>)
    ensures
        r == Err::<(), IoError>(IoError::UnsupportedPlatform),
{
    unsupported()
}

/// Changes a link's own times; not offered by KraftOS.
pub fn set_times_nofollow(_p: &[u8], _times: FileTimes) -> (r: Result<(), IoError>)
    ensures
        r == Err::<(), IoError>(IoError::UnsupportedPlatform),
{
    unsupported()
}

/// Removes an empty directory; not offered by KraftOS.
pub fn rmdir(_p: &[u8]) -> (r: Result<(), IoError>)
    ensures
        r == Err::<(), IoError>(IoError::UnsupportedPlatform),
{
    unsupported()
}

/// Removes a directory and all it holds; not offered by KraftOS.
pub fn remove_dir_all(_path: &[u8]) -> (r: Result<(), IoError>)
    ensures
        r == Err::<(), IoError>(IoError::UnsupportedPlatform),
{
    unsupported()
}

/// Whether a path names a file; not offered by KraftOS.
pub fn try_exists(_path: &[u8]) -> (r: Result<bool, IoError>)
    ensures
        r == Err::<bool, IoError>(IoError::UnsupportedPlatform),
{
    unsupported()
}

/// The target of a symbolic link; not offered by KraftOS.
pub fn readlink(_p: &[u8]) -> (r: Result<Vec<u8>, IoError>)
    ensures
        r == Err::<Vec<u8>, IoError>(IoError::UnsupportedPlatform),
{
    unsupported()
}

/// Makes a symbolic link; not offered by KraftOS.
pub fn symlink(_original: &[u8], _link: &[u8]) -> (r: Result<(), IoError>)
    ensures
        r == Err::<(), IoError>(IoError::UnsupportedPlatform),
{
    unsupported()
}

/// Makes a hard link; not offered by KraftOS.
pub fn link(_src: &[u8], _dst: &[u8]) -> (r: Result<(), IoError>)
    ensures
        r == Err::<(), IoError>(IoError::UnsupportedPlatform),
{
    unsupported()
}

/// The canonical form of a path; not offered by KraftOS.
pub fn canonicalize(_p: &[u8]) -> (r: Result<Vec<u8>, IoError>)
    ensures
        r == Err::<Vec<u8>, IoError>(IoError::UnsupportedPlatform),
{
    unsupported()
}

/// Copies a file; not offered by KraftOS.
pub fn copy(_from: &[u8], _to: &[u8]) -> (r: Result<u64, IoError>)
    ensures
        r == Err::<u64, IoError>(IoError::UnsupportedPlatform),
{
    unsupported()
}

} // verus!
