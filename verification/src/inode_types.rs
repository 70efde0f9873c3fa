//! Inode and directory-entry types, their numeric codes, and the decoding of
//! the type bits of an inode mode.

use vstd::prelude::*;

verus! {

/// The kind of an inode. The first eight variants are the directory-entry
/// type codes of ext4; the others are the file-type bits of an inode mode.
#[allow(non_camel_case_types)]
#[derive(Clone, Copy, Debug, PartialEq, Eq, Structural)]
pub enum InodeTypes {
    EXT4_DE_UNKNOWN,
    EXT4_DE_REG_FILE,
    EXT4_DE_DIR,
    EXT4_DE_CHRDEV,
    EXT4_DE_BLKDEV,
    EXT4_DE_FIFO,
    EXT4_DE_SOCK,
    EXT4_DE_SYMLINK,
    EXT4_INODE_MODE_FIFO,
    EXT4_INODE_MODE_CHARDEV,
    EXT4_INODE_MODE_DIRECTORY,
    EXT4_INODE_MODE_BLOCKDEV,
    EXT4_INODE_MODE_FILE,
    EXT4_INODE_MODE_SOFTLINK,
    EXT4_INODE_MODE_SOCKET,
    EXT4_INODE_MODE_TYPE_MASK,
}

/// The number that ext4 uses for each kind.
pub open spec fn type_code(t: InodeTypes) -> u32 {
    match t {
        InodeTypes::EXT4_DE_UNKNOWN => 0,
        InodeTypes::EXT4_DE_REG_FILE => 1,
        InodeTypes::EXT4_DE_DIR => 2,
        InodeTypes::EXT4_DE_CHRDEV => 3,
        InodeTypes::EXT4_DE_BLKDEV => 4,
        InodeTypes::EXT4_DE_FIFO => 5,
        InodeTypes::EXT4_DE_SOCK => 6,
        InodeTypes::EXT4_DE_SYMLINK => 7,
        InodeTypes::EXT4_INODE_MODE_FIFO => 0x1000,
        InodeTypes::EXT4_INODE_MODE_CHARDEV => 0x2000,
        InodeTypes::EXT4_INODE_MODE_DIRECTORY => 0x4000,
        InodeTypes::EXT4_INODE_MODE_BLOCKDEV => 0x6000,
        InodeTypes::EXT4_INODE_MODE_FILE => 0x8000,
        InodeTypes::EXT4_INODE_MODE_SOFTLINK => 0xA000,
        InodeTypes::EXT4_INODE_MODE_SOCKET => 0xC000,
        InodeTypes::EXT4_INODE_MODE_TYPE_MASK => 0xF000,
    }
}

/// The kind that a number names; a number that names none is `EXT4_DE_UNKNOWN`.
pub open spec fn type_of_code(n: usize) -> InodeTypes {
    if n == 0 {
        InodeTypes::EXT4_DE_UNKNOWN
    } else if n == 1 {
        InodeTypes::EXT4_DE_REG_FILE
    } else if n == 2 {
        InodeTypes::EXT4_DE_DIR
    } else if n == 3 {
        InodeTypes::EXT4_DE_CHRDEV
    } else if n == 4 {
        InodeTypes::EXT4_DE_BLKDEV
    } else if n == 5 {
        InodeTypes::EXT4_DE_FIFO
    } else if n == 6 {
        InodeTypes::EXT4_DE_SOCK
    } else if n == 7 {
        InodeTypes::EXT4_DE_SYMLINK
    } else if n == 0x1000 {
        InodeTypes::EXT4_INODE_MODE_FIFO
    } else if n == 0x2000 {
        InodeTypes::EXT4_INODE_MODE_CHARDEV
    } else if n == 0x4000 {
        InodeTypes::EXT4_INODE_MODE_DIRECTORY
    } else if n == 0x6000 {
        InodeTypes::EXT4_INODE_MODE_BLOCKDEV
    } else if n == 0x8000 {
        InodeTypes::EXT4_INODE_MODE_FILE
    } else if n == 0xA000 {
        InodeTypes::EXT4_INODE_MODE_SOFTLINK
    } else if n == 0xC000 {
        InodeTypes::EXT4_INODE_MODE_SOCKET
    } else if n == 0xF000 {
        InodeTypes::EXT4_INODE_MODE_TYPE_MASK
    } else {
        InodeTypes::EXT4_DE_UNKNOWN
    }
}

/// Whether a kind is one of the file-type values of an inode mode.
pub open spec fn is_mode_type(t: InodeTypes) -> bool {
    type_code(t) >= 0x1000
}

/// The bits of an inode mode above the nine permission bits.
pub open spec fn mode_type_bits(mode: u32) -> u32 {
    mode & 0xFFFF_FE00u32
}

/// The kind that an inode mode describes: the bits above the permission bits
/// name a file type; any other value of them counts as a regular file.
pub open spec fn type_of_mode(mode: u32) -> InodeTypes {
    let bits = mode_type_bits(mode);
    if bits == 0x1000 {
        InodeTypes::EXT4_INODE_MODE_FIFO
    } else if bits == 0x2000 {
        InodeTypes::EXT4_INODE_MODE_CHARDEV
    } else if bits == 0x4000 {
        InodeTypes::EXT4_INODE_MODE_DIRECTORY
    } else if bits == 0x6000 {
        InodeTypes::EXT4_INODE_MODE_BLOCKDEV
    } else if bits == 0x8000 {
        InodeTypes::EXT4_INODE_MODE_FILE
    } else if bits == 0xA000 {
        InodeTypes::EXT4_INODE_MODE_SOFTLINK
    } else if bits == 0xC000 {
        InodeTypes::EXT4_INODE_MODE_SOCKET
    } else if bits == 0xF000 {
        InodeTypes::EXT4_INODE_MODE_TYPE_MASK
    } else {
        InodeTypes::EXT4_INODE_MODE_FILE
    }
}

impl InodeTypes {
    /// The number that ext4 uses for this kind.
    pub fn code(&self) -> (c: u32)
        ensures
            c == type_code(*self),
    {
        match self {
            InodeTypes::EXT4_DE_UNKNOWN => 0,
            InodeTypes::EXT4_DE_REG_FILE => 1,
            InodeTypes::EXT4_DE_DIR => 2,
            InodeTypes::EXT4_DE_CHRDEV => 3,
            InodeTypes::EXT4_DE_BLKDEV => 4,
            InodeTypes::EXT4_DE_FIFO => 5,
            InodeTypes::EXT4_DE_SOCK => 6,
            InodeTypes::EXT4_DE_SYMLINK => 7,
            InodeTypes::EXT4_INODE_MODE_FIFO => 0x1000,
            InodeTypes::EXT4_INODE_MODE_CHARDEV => 0x2000,
            InodeTypes::EXT4_INODE_MODE_DIRECTORY => 0x4000,
            InodeTypes::EXT4_INODE_MODE_BLOCKDEV => 0x6000,
            InodeTypes::EXT4_INODE_MODE_FILE => 0x8000,
            InodeTypes::EXT4_INODE_MODE_SOFTLINK => 0xA000,
            InodeTypes::EXT4_INODE_MODE_SOCKET => 0xC000,
            InodeTypes::EXT4_INODE_MODE_TYPE_MASK => 0xF000,
        }
    }
}

impl From<usize> for InodeTypes {
    fn from(num: usize) -> (t: InodeTypes) {
        match num {
            0 => InodeTypes::EXT4_DE_UNKNOWN,
            1 => InodeTypes::EXT4_DE_REG_FILE,
            2 => InodeTypes::EXT4_DE_DIR,
            3 => InodeTypes::EXT4_DE_CHRDEV,
            4 => InodeTypes::EXT4_DE_BLKDEV,
            5 => InodeTypes::EXT4_DE_FIFO,
            6 => InodeTypes::EXT4_DE_SOCK,
            7 => InodeTypes::EXT4_DE_SYMLINK,
            0x1000 => InodeTypes::EXT4_INODE_MODE_FIFO,
            0x2000 => InodeTypes::EXT4_INODE_MODE_CHARDEV,
            0x4000 => InodeTypes::EXT4_INODE_MODE_DIRECTORY,
            0x6000 => InodeTypes::EXT4_INODE_MODE_BLOCKDEV,
            0x8000 => InodeTypes::EXT4_INODE_MODE_FILE,
            0xA000 => InodeTypes::EXT4_INODE_MODE_SOFTLINK,
            0xC000 => InodeTypes::EXT4_INODE_MODE_SOCKET,
            0xF000 => InodeTypes::EXT4_INODE_MODE_TYPE_MASK,
            _ => InodeTypes::EXT4_DE_UNKNOWN,
        }
    }
}

impl vstd::std_specs::convert::FromSpecImpl<usize> for InodeTypes {
    open spec fn obeys_from_spec() -> bool {
        true
    }

    open spec fn from_spec(num: usize) -> InodeTypes {
        type_of_code(num)
    }
}

/// Every kind is given back by `from` applied to its own number.
pub proof fn lemma_code_round_trip(t: InodeTypes)
    ensures
        type_of_code(type_code(t) as usize) == t,
{
}

/// A number that is no kind's number is read as `EXT4_DE_UNKNOWN`.
pub proof fn lemma_unknown_code(n: usize)
    requires
        forall|t: InodeTypes| type_code(t) != n,
    ensures
        type_of_code(n) == InodeTypes::EXT4_DE_UNKNOWN,
{
    assert(type_code(InodeTypes::EXT4_DE_UNKNOWN) != n);
    assert(type_code(InodeTypes::EXT4_DE_REG_FILE) != n);
    assert(type_code(InodeTypes::EXT4_DE_DIR) != n);
    assert(type_code(InodeTypes::EXT4_DE_CHRDEV) != n);
    assert(type_code(InodeTypes::EXT4_DE_BLKDEV) != n);
    assert(type_code(InodeTypes::EXT4_DE_FIFO) != n);
    assert(type_code(InodeTypes::EXT4_DE_SOCK) != n);
    assert(type_code(InodeTypes::EXT4_DE_SYMLINK) != n);
    assert(type_code(InodeTypes::EXT4_INODE_MODE_FIFO) != n);
    assert(type_code(InodeTypes::EXT4_INODE_MODE_CHARDEV) != n);
    assert(type_code(InodeTypes::EXT4_INODE_MODE_DIRECTORY) != n);
    assert(type_code(InodeTypes::EXT4_INODE_MODE_BLOCKDEV) != n);
    assert(type_code(InodeTypes::EXT4_INODE_MODE_FILE) != n);
    assert(type_code(InodeTypes::EXT4_INODE_MODE_SOFTLINK) != n);
    assert(type_code(InodeTypes::EXT4_INODE_MODE_SOCKET) != n);
    assert(type_code(InodeTypes::EXT4_INODE_MODE_TYPE_MASK) != n);
}

/// A mode made of a file type's number and any permission bits is read back
/// as that file type: the permission bits never change the type.
pub proof fn lemma_mode_round_trip(t: InodeTypes, perm: u32)
    requires
        is_mode_type(t),
        perm <= 0o777,
    ensures
        type_of_mode(type_code(t) | perm) == t,
{
    let c = type_code(t);
    assert(c & 0x1FFu32 == 0u32) by (bit_vector)
        requires
            c == 0x1000u32 || c == 0x2000u32 || c == 0x4000u32 || c == 0x6000u32 || c == 0x8000u32
                || c == 0xA000u32 || c == 0xC000u32 || c == 0xF000u32,
    ;
    assert((c | perm) & 0xFFFF_FE00u32 == c) by (bit_vector)
        requires
            c & 0x1FFu32 == 0u32,
            perm <= 0x1FFu32,
    ;
}

/// Two modes that differ only in their permission bits describe the same kind.
pub proof fn lemma_permissions_ignored(m1: u32, m2: u32)
    requires
        m1 & 0xFFFF_FE00u32 == m2 & 0xFFFF_FE00u32,
    ensures
        type_of_mode(m1) == type_of_mode(m2),
{
}

/// The numbers are ext4's own: the directory-entry types are 0 (unknown),
/// 1 (regular file), 2 (directory), 3 (character device), 4 (block device),
/// 5 (fifo), 6 (socket) and 7 (symbolic link); the mode types are 0x1000
/// (fifo), 0x2000 (character device), 0x4000 (directory), 0x6000 (block
/// device), 0x8000 (regular file), 0xA000 (symbolic link), 0xC000 (socket) and
/// 0xF000 (the type mask). Each number is read back as its kind.
pub proof fn lemma_ext4_type_numbers()
    ensures
        type_code(InodeTypes::EXT4_DE_UNKNOWN) == 0,
        type_code(InodeTypes::EXT4_DE_REG_FILE) == 1,
        type_code(InodeTypes::EXT4_DE_DIR) == 2,
        type_code(InodeTypes::EXT4_DE_CHRDEV) == 3,
        type_code(InodeTypes::EXT4_DE_BLKDEV) == 4,
        type_code(InodeTypes::EXT4_DE_FIFO) == 5,
        type_code(InodeTypes::EXT4_DE_SOCK) == 6,
        type_code(InodeTypes::EXT4_DE_SYMLINK) == 7,
        type_code(InodeTypes::EXT4_INODE_MODE_FIFO) == 0x1000,
        type_code(InodeTypes::EXT4_INODE_MODE_CHARDEV) == 0x2000,
        type_code(InodeTypes::EXT4_INODE_MODE_DIRECTORY) == 0x4000,
        type_code(InodeTypes::EXT4_INODE_MODE_BLOCKDEV) == 0x6000,
        type_code(InodeTypes::EXT4_INODE_MODE_FILE) == 0x8000,
        type_code(InodeTypes::EXT4_INODE_MODE_SOFTLINK) == 0xA000,
        type_code(InodeTypes::EXT4_INODE_MODE_SOCKET) == 0xC000,
        type_code(InodeTypes::EXT4_INODE_MODE_TYPE_MASK) == 0xF000,
        type_of_code(0) == InodeTypes::EXT4_DE_UNKNOWN,
        type_of_code(1) == InodeTypes::EXT4_DE_REG_FILE,
        type_of_code(2) == InodeTypes::EXT4_DE_DIR,
        type_of_code(3) == InodeTypes::EXT4_DE_CHRDEV,
        type_of_code(4) == InodeTypes::EXT4_DE_BLKDEV,
        type_of_code(5) == InodeTypes::EXT4_DE_FIFO,
        type_of_code(6) == InodeTypes::EXT4_DE_SOCK,
        type_of_code(7) == InodeTypes::EXT4_DE_SYMLINK,
        type_of_code(0x1000) == InodeTypes::EXT4_INODE_MODE_FIFO,
        type_of_code(0x2000) == InodeTypes::EXT4_INODE_MODE_CHARDEV,
        type_of_code(0x4000) == InodeTypes::EXT4_INODE_MODE_DIRECTORY,
        type_of_code(0x6000) == InodeTypes::EXT4_INODE_MODE_BLOCKDEV,
        type_of_code(0x8000) == InodeTypes::EXT4_INODE_MODE_FILE,
        type_of_code(0xA000) == InodeTypes::EXT4_INODE_MODE_SOFTLINK,
        type_of_code(0xC000) == InodeTypes::EXT4_INODE_MODE_SOCKET,
        type_of_code(0xF000) == InodeTypes::EXT4_INODE_MODE_TYPE_MASK,
{
}

/// The kind of a mode is decided by its bits above the nine permission bits:
/// when they are the number of a mode type, the kind is the type with that
/// number; any other value of them makes the kind a regular file.
pub proof fn lemma_mode_type_decided_by_type_bits(mode: u32)
    ensures
        ({
            let bits = mode & 0xFFFF_FE00u32;
            if bits == 0x1000 || bits == 0x2000 || bits == 0x4000 || bits == 0x6000 || bits
                == 0x8000 || bits == 0xA000 || bits == 0xC000 || bits == 0xF000 {
                type_code(type_of_mode(mode)) == bits
            } else {
                type_of_mode(mode) == InodeTypes::EXT4_INODE_MODE_FILE
            }
        }),
        is_mode_type(type_of_mode(mode)),
{
}

} // verus!
