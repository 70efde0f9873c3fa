//! The rules by which the return codes of the file system calls become the
//! results of the file operations.

use crate::inode::{inode_info_of, to_inode_info, InodeInfo, RawInode};
use vstd::prelude::*;

verus! {

/// The return code of a call that succeeded.
pub const EOK: i32 = 0;

/// The return code of a call on a path that does not exist.
pub const ENOENT: i32 = 2;

/// Success is code 0 and a missing path is code 2, as in errno.
pub proof fn lemma_status_code_values()
    ensures
        EOK == 0,
        ENOENT == 2,
{
}

/// The result of an operation whose call returned `r`: success, as `Ok(0)`,
/// only when the call succeeded; otherwise the code itself as the error. Opening,
/// renaming, seeking, truncating, setting the mode, flushing the cache, and
/// making or moving a directory all end this way.
pub fn status_result(r: i32) -> (res: Result<usize, i32>)
    ensures
        res is Ok <==> r == EOK,
        res matches Ok(v) ==> v == 0,
        res matches Err(e) ==> e == r,
{
    if r != EOK {
        Err(r)
    } else {
        Ok(EOK as usize)
    }
}

/// The result of a removal whose call returned `r`: a path that is already gone
/// counts as removed, so `ENOENT` is success as well.
pub fn remove_status_result(r: i32) -> (res: Result<usize, i32>)
    ensures
        res is Ok <==> (r == EOK || r == ENOENT),
        res matches Ok(v) ==> v == 0,
        res matches Err(e) ==> e == r,
{
    if r != EOK && r != ENOENT {
        Err(r)
    } else {
        Ok(EOK as usize)
    }
}

/// The result of a call that returned `r` and produced `value` (the number of
/// bytes read or written, or a mode): the value when the call succeeded,
/// otherwise the code as the error.
pub fn value_result<T>(r: i32, value: T) -> (res: Result<T, i32>)
    ensures
        res is Ok <==> r == EOK,
        res matches Ok(v) ==> v == value,
        res matches Err(e) ==> e == r,
{
    if r != EOK {
        Err(r)
    } else {
        Ok(value)
    }
}

/// Whether an inode exists, given the return code of the lookup.
pub fn exists_result(r: i32) -> (b: bool)
    ensures
        b <==> r == EOK,
{
    r == EOK
}

/// The metadata of an inode, given the return code of the call that filled its
/// number `ino` and raw fields `raw`: the decoded metadata on success, `Err(-1)`
/// on any failure.
pub fn inode_result(r: i32, ino: u32, raw: &RawInode) -> (res: Result<InodeInfo, i32>)
    ensures
        res is Ok <==> r == 0,
        res matches Ok(info) ==> info == inode_info_of(ino, *raw),
        res matches Err(e) ==> e == -1,
{
    if r == 0 {
        Ok(to_inode_info(ino, raw))
    } else {
        Err(-1)
    }
}

} // verus!
