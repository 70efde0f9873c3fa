use lwext4_rust::file::{
    seek_offset, DirEntryRaw, Ext4File, O_APPEND, O_CREAT, O_RDONLY, O_RDWR, O_TRUNC, O_WRONLY,
};
use lwext4_rust::inode_types::InodeTypes;
use lwext4_rust::status::{
    exists_result, remove_status_result, status_result, value_result, ENOENT, EOK,
};

fn raw_entry(name: &[u8], inode_type: u8) -> DirEntryRaw {
    let mut buf = [0xAAu8; 255];
    buf[..name.len()].copy_from_slice(name);
    DirEntryRaw { name: buf, name_length: name.len() as u8, inode_type }
}

#[test]
fn open_flags_table() {
    assert_eq!(Ext4File::flags_to_cstring(O_RDONLY), "rb");
    assert_eq!(Ext4File::flags_to_cstring(O_WRONLY | O_CREAT | O_TRUNC), "wb");
    assert_eq!(Ext4File::flags_to_cstring(O_WRONLY | O_CREAT | O_APPEND), "ab");
    assert_eq!(Ext4File::flags_to_cstring(O_RDWR), "r+");
    assert_eq!(Ext4File::flags_to_cstring(O_RDWR | O_CREAT | O_TRUNC), "w+");
    assert_eq!(Ext4File::flags_to_cstring(O_RDWR | O_CREAT | O_APPEND), "a+");
}

#[test]
fn unknown_open_flags_read_and_write() {
    assert_eq!(Ext4File::flags_to_cstring(O_WRONLY), "r+");
    assert_eq!(Ext4File::flags_to_cstring(O_CREAT), "r+");
    assert_eq!(Ext4File::flags_to_cstring(0xFFFF_FFFF), "r+");
}

#[test]
fn new_keeps_path_and_type() {
    let f = Ext4File::new("/dir/file.txt", InodeTypes::EXT4_DE_REG_FILE);
    assert_eq!(f.get_path(), "/dir/file.txt");
    assert_eq!(f.get_type(), InodeTypes::EXT4_DE_REG_FILE);
}

#[test]
fn listing_a_non_directory_fails() {
    let f = Ext4File::new("/a", InodeTypes::EXT4_DE_REG_FILE);
    let entries = vec![raw_entry(b"x", 1)];
    assert_eq!(f.lwext4_dir_entries(&entries).err(), Some(-1));
    let g = Ext4File::new("/b", InodeTypes::EXT4_INODE_MODE_DIRECTORY);
    assert_eq!(g.lwext4_dir_entries(&entries).err(), Some(-1));
}

#[test]
fn listing_a_directory() {
    let f = Ext4File::new("/", InodeTypes::EXT4_DE_DIR);
    let entries = vec![raw_entry(b".", 2), raw_entry(b"..", 2), raw_entry(b"hello.txt", 1), raw_entry(b"", 9)];
    let (names, types) = f.lwext4_dir_entries(&entries).unwrap();
    assert_eq!(names, vec![b".\0".to_vec(), b"..\0".to_vec(), b"hello.txt\0".to_vec(), b"\0".to_vec()]);
    assert_eq!(
        types,
        vec![
            InodeTypes::EXT4_DE_DIR,
            InodeTypes::EXT4_DE_DIR,
            InodeTypes::EXT4_DE_REG_FILE,
            InodeTypes::EXT4_DE_UNKNOWN
        ]
    );
}

#[test]
fn listing_an_empty_directory() {
    let f = Ext4File::new("/empty", InodeTypes::EXT4_DE_DIR);
    let (names, types) = f.lwext4_dir_entries(&Vec::new()).unwrap();
    assert!(names.is_empty());
    assert!(types.is_empty());
}

#[test]
fn longest_entry_name() {
    let f = Ext4File::new("/", InodeTypes::EXT4_DE_DIR);
    let long = [b'z'; 254];
    let (names, _) = f.lwext4_dir_entries(&vec![raw_entry(&long, 1)]).unwrap();
    assert_eq!(names[0].len(), 255);
    assert_eq!(names[0][253], b'z');
    assert_eq!(names[0][254], 0);
}

#[test]
fn seek_is_clamped_to_size() {
    assert_eq!(seek_offset(10, 5), 5);
    assert_eq!(seek_offset(5, 5), 5);
    assert_eq!(seek_offset(3, 5), 3);
    assert_eq!(seek_offset(-1, 5), -1);
    assert_eq!(seek_offset(0, 0), 0);
}

#[test]
fn seek_size_read_as_signed() {
    // A size past i64::MAX reads as a negative number.
    assert_eq!(seek_offset(5, u64::MAX), -1);
    assert_eq!(seek_offset(i64::MAX, i64::MAX as u64), i64::MAX);
}

#[test]
fn status_codes() {
    assert_eq!(EOK, 0);
    assert_eq!(status_result(EOK), Ok(0));
    assert_eq!(status_result(5), Err(5));
    assert_eq!(status_result(ENOENT), Err(ENOENT));
    assert_eq!(status_result(-1), Err(-1));
}

#[test]
fn removing_a_missing_path_succeeds() {
    assert_eq!(remove_status_result(EOK), Ok(0));
    assert_eq!(remove_status_result(ENOENT), Ok(0));
    assert_eq!(remove_status_result(13), Err(13));
}

#[test]
fn values_pass_through_on_success() {
    assert_eq!(value_result(EOK, 512usize), Ok(512));
    assert_eq!(value_result(5, 512usize), Err(5));
    assert_eq!(value_result(EOK, 0o644u32), Ok(0o644));
    assert_eq!(value_result(28, 0o644u32), Err(28));
}

#[test]
fn existence() {
    assert!(exists_result(EOK));
    assert!(!exists_result(ENOENT));
    assert!(!exists_result(-1));
}
