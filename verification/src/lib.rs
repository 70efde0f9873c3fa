//! Verified core of a file handle over the lwext4 file system library: the
//! inode and directory-entry types, the decoding of raw on-disk inode fields,
//! the translation of open flags and inode modes, and the rules by which the
//! return codes of the file system calls become results.

pub mod inode_types;
pub mod inode;
pub mod file;
pub mod status;
