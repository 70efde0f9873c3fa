//! A file handle of the lwext4 file system: its path and kind, the open
//! modes that open flags stand for, the kind that an inode mode describes,
//! the clamping of a seek offset and the listing of a directory's entries.

use crate::inode_types::{
    is_mode_type, mode_type_bits, type_of_code, type_of_mode, InodeTypes,
};
use vstd::prelude::*;

verus! {

/// Open for reading only.
pub const O_RDONLY: u32 = 0x0;

/// Open for writing only.
pub const O_WRONLY: u32 = 0x1;

/// Open for reading and writing.
pub const O_RDWR: u32 = 0x2;

/// Create the file if it does not exist.
pub const O_CREAT: u32 = 0x40;

/// Cut the file to length zero.
pub const O_TRUNC: u32 = 0x200;

/// Write at the end of the file.
pub const O_APPEND: u32 = 0x400;

/// The `fopen`-style mode that a combination of open flags stands for:
///
/// | mode | flags                         |
/// |------|-------------------------------|
/// | `rb` | `O_RDONLY`                    |
/// | `r+` | `O_RDWR`                      |
/// | `wb` | `O_WRONLY|O_CREAT|O_TRUNC`    |
/// | `ab` | `O_WRONLY|O_CREAT|O_APPEND`   |
/// | `w+` | `O_RDWR|O_CREAT|O_TRUNC`      |
/// | `a+` | `O_RDWR|O_CREAT|O_APPEND`     |
///
/// (`0x241`, `0x441`, `0x242` and `0x442` are the last four combinations.)
/// Any other combination is opened as `r+`.
pub open spec fn open_mode(flags: u32) -> Seq<char> {
    if flags == O_RDONLY {
        seq!['r', 'b']
    } else if flags == O_RDWR {
        seq!['r', '+']
    } else if flags == 0x241 {
        seq!['w', 'b']
    } else if flags == 0x441 {
        seq!['a', 'b']
    } else if flags == 0x242 {
        seq!['w', '+']
    } else if flags == 0x442 {
        seq!['a', '+']
    } else {
        seq!['r', '+']
    }
}

/// The six modes that a file can be opened with.
pub open spec fn is_open_mode(m: Seq<char>) -> bool {
    ||| m == seq!['r', 'b']
    ||| m == seq!['r', '+']
    ||| m == seq!['w', 'b']
    ||| m == seq!['a', 'b']
    ||| m == seq!['w', '+']
    ||| m == seq!['a', '+']
}

/// The combinations of open flags that `open_mode` names by number are the
/// ones its table shows.
pub proof fn lemma_open_flag_combinations()
    ensures
        O_WRONLY | O_CREAT | O_TRUNC == 0x241,
        O_WRONLY | O_CREAT | O_APPEND == 0x441,
        O_RDWR | O_CREAT | O_TRUNC == 0x242,
        O_RDWR | O_CREAT | O_APPEND == 0x442,
{
    assert(0x1u32 | 0x40u32 | 0x200u32 == 0x241u32) by (bit_vector);
    assert(0x1u32 | 0x40u32 | 0x400u32 == 0x441u32) by (bit_vector);
    assert(0x2u32 | 0x40u32 | 0x200u32 == 0x242u32) by (bit_vector);
    assert(0x2u32 | 0x40u32 | 0x400u32 == 0x442u32) by (bit_vector);
}

/// Each of the six flag values of the table names its own mode, and every
/// other value opens for reading and writing (`r+`). So a file is cut to length
/// zero (a `w` mode) only when the flags ask to create and truncate it, and
/// written at its end (an `a` mode) only when they ask to create and append;
/// a mode that writes only (`wb`, `ab`) comes only from flags that ask to
/// write only.
pub proof fn lemma_open_mode_choice(flags: u32)
    ensures
        flags == O_RDONLY ==> open_mode(flags) == seq!['r', 'b'],
        flags == O_RDWR ==> open_mode(flags) == seq!['r', '+'],
        flags == 0x241 ==> open_mode(flags) == seq!['w', 'b'],
        flags == 0x441 ==> open_mode(flags) == seq!['a', 'b'],
        flags == 0x242 ==> open_mode(flags) == seq!['w', '+'],
        flags == 0x442 ==> open_mode(flags) == seq!['a', '+'],
        !(flags == O_RDONLY || flags == O_RDWR || flags == 0x241 || flags == 0x441 || flags
            == 0x242 || flags == 0x442) ==> open_mode(flags) == seq!['r', '+'],
        open_mode(flags).len() == 2,
        open_mode(flags)[0] == 'w' ==> flags & O_TRUNC == O_TRUNC && flags & O_CREAT == O_CREAT
            && flags & O_APPEND == 0,
        open_mode(flags)[0] == 'a' ==> flags & O_APPEND == O_APPEND && flags & O_CREAT
            == O_CREAT && flags & O_TRUNC == 0,
        open_mode(flags)[1] == 'b' && open_mode(flags)[0] != 'r' ==> flags & 0x3u32 == O_WRONLY,
        open_mode(flags)[1] == '+' && open_mode(flags)[0] != 'r' ==> flags & 0x3u32 == O_RDWR,
{
    assert(0x241u32 & 0x200u32 == 0x200u32 && 0x241u32 & 0x40u32 == 0x40u32 && 0x241u32
        & 0x400u32 == 0u32 && 0x241u32 & 0x3u32 == 0x1u32) by (bit_vector);
    assert(0x242u32 & 0x200u32 == 0x200u32 && 0x242u32 & 0x40u32 == 0x40u32 && 0x242u32
        & 0x400u32 == 0u32 && 0x242u32 & 0x3u32 == 0x2u32) by (bit_vector);
    assert(0x441u32 & 0x400u32 == 0x400u32 && 0x441u32 & 0x40u32 == 0x40u32 && 0x441u32
        & 0x200u32 == 0u32 && 0x441u32 & 0x3u32 == 0x1u32) by (bit_vector);
    assert(0x442u32 & 0x400u32 == 0x400u32 && 0x442u32 & 0x40u32 == 0x40u32 && 0x442u32
        & 0x200u32 == 0u32 && 0x442u32 & 0x3u32 == 0x2u32) by (bit_vector);
}

/// A seek keeps every offset that is not past the end of the file, and moves an
/// offset past the end to the end itself; the target is never past the end.
pub proof fn lemma_seek_moves_only_offsets_past_the_end(offset: i64, size: u64)
    ensures
        offset <= size as i64 ==> seek_target(offset, size) == offset,
        offset > size as i64 ==> seek_target(offset, size) == size as i64,
        seek_target(offset, size) <= size as i64,
        seek_target(offset, size) <= offset,
{
}

/// A listed name is the entry's first `name_length` bytes, in order, followed
/// by one zero byte; bytes of the buffer past the name are never listed.
pub proof fn lemma_entry_name_is_zero_terminated(e: DirEntryRaw)
    requires
        e.name_length < 255,
    ensures
        entry_name(e).len() == e.name_length + 1,
        entry_name(e)[e.name_length as int] == 0u8,
        forall|j: int| 0 <= j < e.name_length ==> #[trigger] entry_name(e)[j] == e.name[j],
{
}

/// The open flags carry their usual POSIX values.
pub proof fn lemma_open_flag_values()
    ensures
        O_RDONLY == 0,
        O_WRONLY == 1,
        O_RDWR == 2,
        O_CREAT == 0o100,
        O_TRUNC == 0o1000,
        O_APPEND == 0o2000,
{
}

/// An entry of a directory as the file system hands it out: a name buffer, the
/// length of the name in it, and the entry's type code.
pub struct DirEntryRaw {
    pub name: [u8; 255],
    pub name_length: u8,
    pub inode_type: u8,
}

/// The name of an entry as the listing gives it: its bytes followed by a zero
/// byte.
pub open spec fn entry_name(e: DirEntryRaw) -> Seq<u8> {
    e.name@.subrange(0, e.name_length as int).push(0u8)
}

/// The kind of an entry as the listing gives it.
pub open spec fn entry_type(e: DirEntryRaw) -> InodeTypes {
    type_of_code(e.inode_type as usize)
}

/// The offset that a seek within a file of `size` bytes goes to: an offset past
/// the end is moved back to the end. The size is read as a signed 64-bit
/// number.
pub open spec fn seek_target(offset: i64, size: u64) -> i64 {
    if offset > size as i64 {
        size as i64
    } else {
        offset
    }
}

/// The offset to seek to when `offset` is asked for in a file of `size` bytes.
pub fn seek_offset(offset: i64, size: u64) -> (r: i64)
    ensures
        r == seek_target(offset, size),
        offset <= size as i64 ==> r == offset,
        offset > size as i64 ==> r == size as i64,
        size <= i64::MAX ==> r <= size,
        r <= offset,
{
    let size = size as i64;
    if offset > size {
        size
    } else {
        offset
    }
}

/// A file or directory of the file system, named by its path.
pub struct Ext4File {
    file_path: String,
    this_type: InodeTypes,
}

impl Ext4File {
    #[verifier::type_invariant]
    spec fn path_has_no_nul(self) -> bool {
        !self.file_path@.contains('\0')
    }

    /// The path of the file.
    pub closed spec fn path(self) -> Seq<char> {
        self.file_path@
    }

    /// The kind of the file.
    pub closed spec fn kind(self) -> InodeTypes {
        self.this_type
    }

    /// A handle of the file at `path`, of kind `types`. A path holds no zero
    /// character: it is handed to the file system as a C string.
    pub fn new(path: &str, types: InodeTypes) -> (f: Self)
        requires
            !path@.contains('\0'),
        ensures
            f.path() == path@,
            f.kind() == types,
    {
        Ext4File { file_path: path.to_owned(), this_type: types }
    }

    /// The path of the file.
    pub fn get_path(&self) -> (p: String)
        ensures
            p@ == self.path(),
            !p@.contains('\0'),
    {
        proof {
            use_type_invariant(self);
        }
        self.file_path.clone()
    }

    /// The kind of the file.
    pub fn get_type(&self) -> (t: InodeTypes)
        ensures
            t == self.kind(),
    {
        self.this_type
    }

    /// The mode to open a file with, for the given open flags (see `open_mode`).
    pub fn flags_to_cstring(flags: u32) -> (m: &'static str)
        ensures
            m@ == open_mode(flags),
            is_open_mode(m@),
    {
        proof {
            reveal_strlit("rb");
            reveal_strlit("r+");
            reveal_strlit("wb");
            reveal_strlit("ab");
            reveal_strlit("w+");
            reveal_strlit("a+");
            assert("rb"@ =~= seq!['r', 'b']);
            assert("r+"@ =~= seq!['r', '+']);
            assert("wb"@ =~= seq!['w', 'b']);
            assert("ab"@ =~= seq!['a', 'b']);
            assert("w+"@ =~= seq!['w', '+']);
            assert("a+"@ =~= seq!['a', '+']);
        }
        if flags == O_RDONLY {
            "rb"
        } else if flags == O_RDWR {
            "r+"
        } else if flags == 0x241 {
            "wb"
        } else if flags == 0x441 {
            "ab"
        } else if flags == 0x242 {
            "w+"
        } else if flags == 0x442 {
            "a+"
        } else {
            "r+"
        }
    }

    /// The kind of file that the inode mode `mode` describes (see `type_of_mode`).
    pub fn file_type_get(mode: u32) -> (t: InodeTypes)
        ensures
            t == type_of_mode(mode),
            is_mode_type(t),
    {
        let cal: u32 = 0o777;
        let types = mode & (!cal);
        assert(types == mode_type_bits(mode)) by (bit_vector)
            requires
                cal == 0o777u32,
                types == mode & !cal,
        ;
        match types {
            0x1000 => InodeTypes::EXT4_INODE_MODE_FIFO,
            0x2000 => InodeTypes::EXT4_INODE_MODE_CHARDEV,
            0x4000 => InodeTypes::EXT4_INODE_MODE_DIRECTORY,
            0x6000 => InodeTypes::EXT4_INODE_MODE_BLOCKDEV,
            0x8000 => InodeTypes::EXT4_INODE_MODE_FILE,
            0xA000 => InodeTypes::EXT4_INODE_MODE_SOFTLINK,
            0xC000 => InodeTypes::EXT4_INODE_MODE_SOCKET,
            0xF000 => InodeTypes::EXT4_INODE_MODE_TYPE_MASK,
            _ => InodeTypes::EXT4_INODE_MODE_FILE,
        }
    }

    /// The names and kinds of the entries of this directory, given the entries
    /// that the file system hands out for it, in order. Only a handle made as a
    /// directory (`EXT4_DE_DIR`) lists its entries; any other gives `Err(-1)`.
    pub fn lwext4_dir_entries(&self, entries: &Vec<DirEntryRaw>) -> (r: Result<
        (Vec<Vec<u8>>, Vec<InodeTypes>),
        i32,
    >)
        requires
            forall|i: int| 0 <= i < entries.len() ==> #[trigger] entries[i].name_length < 255,
        ensures
            r is Err <==> self.kind() != InodeTypes::EXT4_DE_DIR,
            r matches Err(e) ==> e == -1,
            r matches Ok((names, types)) ==> {
                &&& names.len() == entries.len()
                &&& types.len() == entries.len()
                &&& forall|i: int|
                    0 <= i < entries.len() ==> (#[trigger] names[i])@ == entry_name(entries[i])
                &&& forall|i: int|
                    0 <= i < entries.len() ==> (#[trigger] names[i])@.len() == entries[i].name_length
                        + 1 && names[i]@.last() == 0u8
                &&& forall|i: int|
                    0 <= i < entries.len() ==> #[trigger] types[i] == entry_type(entries[i])
            },
    {
        if self.this_type != InodeTypes::EXT4_DE_DIR {
            return Err(-1);
        }
        let mut names: Vec<Vec<u8>> = Vec::new();
        let mut types: Vec<InodeTypes> = Vec::new();
        let mut k: usize = 0;
        while k < entries.len()
            invariant
                k <= entries.len(),
                names.len() == k,
                types.len() == k,
                forall|i: int| 0 <= i < entries.len() ==> #[trigger] entries[i].name_length < 255,
                forall|i: int| 0 <= i < k ==> (#[trigger] names[i])@ == entry_name(entries[i]),
                forall|i: int| 0 <= i < k ==> #[trigger] types[i] == entry_type(entries[i]),
            decreases entries.len() - k,
        {
            let entry = &entries[k];
            let len = entry.name_length as usize;
            let mut name: Vec<u8> = Vec::new();
            let mut j: usize = 0;
            while j < len
                invariant
                    j <= len,
                    len == entry.name_length,
                    len < 255,
                    name@ == entry.name@.subrange(0, j as int),
                decreases len - j,
            {
                name.push(entry.name[j]);
                j = j + 1;
            }
            name.push(0u8);
            names.push(name);
            types.push(InodeTypes::from(entry.inode_type as usize));
            k = k + 1;
        }
        Ok((names, types))
    }
}

} // verus!
