use lwext4_rust::file::Ext4File;
use lwext4_rust::inode_types::InodeTypes;

const ALL: [InodeTypes; 16] = [
    InodeTypes::EXT4_DE_UNKNOWN,
    InodeTypes::EXT4_DE_REG_FILE,
    InodeTypes::EXT4_DE_DIR,
    InodeTypes::EXT4_DE_CHRDEV,
    InodeTypes::EXT4_DE_BLKDEV,
    InodeTypes::EXT4_DE_FIFO,
    InodeTypes::EXT4_DE_SOCK,
    InodeTypes::EXT4_DE_SYMLINK,
    InodeTypes::EXT4_INODE_MODE_FIFO,
    InodeTypes::EXT4_INODE_MODE_CHARDEV,
    InodeTypes::EXT4_INODE_MODE_DIRECTORY,
    InodeTypes::EXT4_INODE_MODE_BLOCKDEV,
    InodeTypes::EXT4_INODE_MODE_FILE,
    InodeTypes::EXT4_INODE_MODE_SOFTLINK,
    InodeTypes::EXT4_INODE_MODE_SOCKET,
    InodeTypes::EXT4_INODE_MODE_TYPE_MASK,
];

#[test]
fn codes_match_ext4() {
    assert_eq!(InodeTypes::EXT4_DE_UNKNOWN.code(), 0);
    assert_eq!(InodeTypes::EXT4_DE_REG_FILE.code(), 1);
    assert_eq!(InodeTypes::EXT4_DE_DIR.code(), 2);
    assert_eq!(InodeTypes::EXT4_DE_SYMLINK.code(), 7);
    assert_eq!(InodeTypes::EXT4_INODE_MODE_FIFO.code(), 0x1000);
    assert_eq!(InodeTypes::EXT4_INODE_MODE_DIRECTORY.code(), 0x4000);
    assert_eq!(InodeTypes::EXT4_INODE_MODE_FILE.code(), 0x8000);
    assert_eq!(InodeTypes::EXT4_INODE_MODE_SOFTLINK.code(), 0xA000);
    assert_eq!(InodeTypes::EXT4_INODE_MODE_TYPE_MASK.code(), 0xF000);
}

#[test]
fn from_code_round_trip() {
    for t in ALL {
        assert_eq!(InodeTypes::from(t.code() as usize), t);
    }
}

#[test]
fn from_known_codes() {
    assert_eq!(InodeTypes::from(1usize), InodeTypes::EXT4_DE_REG_FILE);
    assert_eq!(InodeTypes::from(2usize), InodeTypes::EXT4_DE_DIR);
    assert_eq!(InodeTypes::from(6usize), InodeTypes::EXT4_DE_SOCK);
    assert_eq!(InodeTypes::from(0xC000usize), InodeTypes::EXT4_INODE_MODE_SOCKET);
}

#[test]
fn from_unknown_codes() {
    assert_eq!(InodeTypes::from(8usize), InodeTypes::EXT4_DE_UNKNOWN);
    assert_eq!(InodeTypes::from(0x1001usize), InodeTypes::EXT4_DE_UNKNOWN);
    assert_eq!(InodeTypes::from(usize::MAX), InodeTypes::EXT4_DE_UNKNOWN);
}

#[test]
fn mode_types() {
    assert_eq!(Ext4File::file_type_get(0o100644), InodeTypes::EXT4_INODE_MODE_FILE);
    assert_eq!(Ext4File::file_type_get(0o040755), InodeTypes::EXT4_INODE_MODE_DIRECTORY);
    assert_eq!(Ext4File::file_type_get(0o120777), InodeTypes::EXT4_INODE_MODE_SOFTLINK);
    assert_eq!(Ext4File::file_type_get(0o010600), InodeTypes::EXT4_INODE_MODE_FIFO);
    assert_eq!(Ext4File::file_type_get(0o020620), InodeTypes::EXT4_INODE_MODE_CHARDEV);
    assert_eq!(Ext4File::file_type_get(0o060660), InodeTypes::EXT4_INODE_MODE_BLOCKDEV);
    assert_eq!(Ext4File::file_type_get(0o140777), InodeTypes::EXT4_INODE_MODE_SOCKET);
    assert_eq!(Ext4File::file_type_get(0o170000), InodeTypes::EXT4_INODE_MODE_TYPE_MASK);
}

#[test]
fn mode_with_unknown_type_bits_is_a_file() {
    assert_eq!(Ext4File::file_type_get(0), InodeTypes::EXT4_INODE_MODE_FILE);
    // The sticky bit lies outside the permission bits, so it makes the type bits unknown.
    assert_eq!(Ext4File::file_type_get(0o041777), InodeTypes::EXT4_INODE_MODE_FILE);
    assert_eq!(Ext4File::file_type_get(0x3000), InodeTypes::EXT4_INODE_MODE_FILE);
}

#[test]
fn mode_round_trip_over_permissions() {
    let mode_types = &ALL[8..];
    for t in mode_types {
        for perm in [0u32, 0o644, 0o755, 0o777] {
            assert_eq!(Ext4File::file_type_get(t.code() | perm), *t);
        }
    }
}
