//! Inode metadata: the raw little-endian fields of an on-disk ext4 inode and
//! their decoding into host values.

use byteorder::{ByteOrder, LittleEndian};
use vstd::arithmetic::div_mod::lemma_fundamental_div_mod_converse;
use vstd::endian::{endianness, Endian};
use vstd::prelude::*;

verus! {

/// Metadata of an inode, in host byte order.
pub struct InodeInfo {
    pub dev: u64,
    pub st_ino: u32,
    pub nlink: u32,
    pub uid: u16,
    pub gid: u16,
    pub nblk_lo: u32,
    pub atime: u32,
    pub mtime: u32,
    pub ctime: u32,
    pub atime_ex: u32,
    pub mtime_ex: u32,
    pub ctime_ex: u32,
}

impl InodeInfo {
    pub fn dev(&self) -> (r: u64)
        ensures
            r == self.dev,
    {
        self.dev
    }

    pub fn st_ino(&self) -> (r: u32)
        ensures
            r == self.st_ino,
    {
        self.st_ino
    }

    pub fn nlink(&self) -> (r: u32)
        ensures
            r == self.nlink,
    {
        self.nlink
    }

    pub fn uid(&self) -> (r: u16)
        ensures
            r == self.uid,
    {
        self.uid
    }

    pub fn gid(&self) -> (r: u16)
        ensures
            r == self.gid,
    {
        self.gid
    }

    pub fn nblk_lo(&self) -> (r: u32)
        ensures
            r == self.nblk_lo,
    {
        self.nblk_lo
    }

    pub fn atime(&self) -> (r: u32)
        ensures
            r == self.atime,
    {
        self.atime
    }

    pub fn mtime(&self) -> (r: u32)
        ensures
            r == self.mtime,
    {
        self.mtime
    }

    pub fn ctime(&self) -> (r: u32)
        ensures
            r == self.ctime,
    {
        self.ctime
    }

    pub fn atime_ex(&self) -> (r: u32)
        ensures
            r == self.atime_ex,
    {
        self.atime_ex
    }

    pub fn mtime_ex(&self) -> (r: u32)
        ensures
            r == self.mtime_ex,
    {
        self.mtime_ex
    }

    pub fn ctime_ex(&self) -> (r: u32)
        ensures
            r == self.ctime_ex,
    {
        self.ctime_ex
    }
}

/// The fields of an on-disk ext4 inode that the metadata is made from, each
/// exactly as it lies in memory after the inode was read from disk (ext4
/// stores them little-endian).
pub struct RawInode {
    pub links_count: u16,
    pub uid: u16,
    pub gid: u16,
    pub blocks_count_lo: u32,
    pub access_time: u32,
    pub change_inode_time: u32,
    pub modification_time: u32,
    pub atime_extra: u32,
    pub ctime_extra: u32,
    pub mtime_extra: u32,
}

/// The bytes of a 16-bit value, least significant first.
pub open spec fn le_bytes_u16(x: u16) -> Seq<u8> {
    seq![(x % 256) as u8, (x / 256) as u8]
}

/// The bytes of a 32-bit value, least significant first.
pub open spec fn le_bytes_u32(x: u32) -> Seq<u8> {
    seq![(x % 256) as u8, ((x / 256) % 256) as u8, ((x / 65536) % 256) as u8, (x / 16777216) as u8]
}

/// The memory representation of a 16-bit value on the executing hardware.
pub open spec fn native_bytes_u16(x: u16) -> Seq<u8> {
    match endianness() {
        Endian::Little => le_bytes_u16(x),
        Endian::Big => le_bytes_u16(x).reverse(),
    }
}

/// The memory representation of a 32-bit value on the executing hardware.
pub open spec fn native_bytes_u32(x: u32) -> Seq<u8> {
    match endianness() {
        Endian::Little => le_bytes_u32(x),
        Endian::Big => le_bytes_u32(x).reverse(),
    }
}

/// The value of two bytes read least significant first.
pub open spec fn le_value_u16(b: Seq<u8>) -> int {
    b[0] + 256 * b[1]
}

/// The value of four bytes read least significant first.
pub open spec fn le_value_u32(b: Seq<u8>) -> int {
    b[0] + 256 * b[1] + 65536 * b[2] + 16777216 * b[3]
}

/// A 16-bit value with its two bytes exchanged.
pub open spec fn swap_u16(x: u16) -> u16 {
    ((x % 256) * 256 + x / 256) as u16
}

/// A 32-bit value with its four bytes in reverse order.
pub open spec fn swap_u32(x: u32) -> u32 {
    ((x % 256) * 16777216 + ((x / 256) % 256) * 65536 + ((x / 65536) % 256) * 256 + x
        / 16777216) as u32
}

/// The host value of a 16-bit field that lies in memory as stored on disk,
/// little-endian: unchanged on little-endian hardware, byte-swapped on
/// big-endian hardware.
pub open spec fn host_u16(x: u16) -> u16 {
    match endianness() {
        Endian::Little => x,
        Endian::Big => swap_u16(x),
    }
}

/// The host value of a 32-bit field that lies in memory as stored on disk.
pub open spec fn host_u32(x: u32) -> u32 {
    match endianness() {
        Endian::Little => x,
        Endian::Big => swap_u32(x),
    }
}

/// The metadata that a raw inode with the given number describes.
pub open spec fn inode_info_of(ino: u32, raw: RawInode) -> InodeInfo {
    InodeInfo {
        dev: 0,
        st_ino: ino,
        nlink: host_u16(raw.links_count) as u32,
        uid: host_u16(raw.uid),
        gid: host_u16(raw.gid),
        nblk_lo: host_u32(raw.blocks_count_lo),
        atime: host_u32(raw.access_time),
        mtime: host_u32(raw.modification_time),
        ctime: host_u32(raw.change_inode_time),
        atime_ex: host_u32(raw.atime_extra),
        mtime_ex: host_u32(raw.mtime_extra),
        ctime_ex: host_u32(raw.ctime_extra),
    }
}

/// Calls `u16::to_ne_bytes`, which std documents as the memory representation
/// of the value in native byte order.
#[verifier::external_body]
fn u16_native_bytes(x: u16) -> (b: [u8; 2])
    ensures
        b@ == native_bytes_u16(x),
{
    x.to_ne_bytes()
}

/// Calls `u32::to_ne_bytes`, which std documents as the memory representation
/// of the value in native byte order.
#[verifier::external_body]
fn u32_native_bytes(x: u32) -> (b: [u8; 4])
    ensures
        b@ == native_bytes_u32(x),
{
    x.to_ne_bytes()
}

/// Calls byteorder's `LittleEndian::read_u16`, which reads the first two bytes
/// of the buffer, least significant first (and panics on a shorter buffer).
#[verifier::external_body]
fn le_read_u16(buf: &[u8]) -> (r: u16)
    requires
        buf@.len() >= 2,
    ensures
        r == le_value_u16(buf@),
{
    LittleEndian::read_u16(buf)
}

/// Calls byteorder's `LittleEndian::read_u32`, which reads the first four bytes
/// of the buffer, least significant first (and panics on a shorter buffer).
#[verifier::external_body]
fn le_read_u32(buf: &[u8]) -> (r: u32)
    requires
        buf@.len() >= 4,
    ensures
        r == le_value_u32(buf@),
{
    LittleEndian::read_u32(buf)
}

proof fn lemma_read_native_u16(x: u16)
    ensures
        le_value_u16(native_bytes_u16(x)) == host_u16(x),
{
    match endianness() {
        Endian::Little => {},
        Endian::Big => {
            assert(le_bytes_u16(x).reverse() =~= seq![(x / 256) as u8, (x % 256) as u8]);
        },
    }
}

proof fn lemma_read_native_u32(x: u32)
    ensures
        le_value_u32(native_bytes_u32(x)) == host_u32(x),
{
    match endianness() {
        Endian::Little => {},
        Endian::Big => {
            assert(le_bytes_u32(x).reverse() =~= seq![
                (x / 16777216) as u8,
                ((x / 65536) % 256) as u8,
                ((x / 256) % 256) as u8,
                (x % 256) as u8,
            ]);
        },
    }
}

/// Decodes a little-endian 16-bit field as it lies in memory.
fn field_u16(x: u16) -> (r: u16)
    ensures
        r == host_u16(x),
{
    let bytes = u16_native_bytes(x);
    proof {
        lemma_read_native_u16(x);
    }
    le_read_u16(bytes.as_slice())
}

/// Decodes a little-endian 32-bit field as it lies in memory.
fn field_u32(x: u32) -> (r: u32)
    ensures
        r == host_u32(x),
{
    let bytes = u32_native_bytes(x);
    proof {
        lemma_read_native_u32(x);
    }
    le_read_u32(bytes.as_slice())
}

/// The metadata of the inode with number `ino` whose raw fields are `inode`.
pub fn to_inode_info(ino: u32, inode: &RawInode) -> (info: InodeInfo)
    ensures
        info == inode_info_of(ino, *inode),
{
    InodeInfo {
        dev: 0,
        st_ino: ino,
        nlink: field_u16(inode.links_count) as u32,
        uid: field_u16(inode.uid),
        gid: field_u16(inode.gid),
        nblk_lo: field_u32(inode.blocks_count_lo),
        atime: field_u32(inode.access_time),
        ctime: field_u32(inode.change_inode_time),
        mtime: field_u32(inode.modification_time),
        atime_ex: field_u32(inode.atime_extra),
        ctime_ex: field_u32(inode.ctime_extra),
        mtime_ex: field_u32(inode.mtime_extra),
    }
}

/// On little-endian hardware the fields lie in memory as their host values, so
/// the metadata carries every raw field whole and unchanged: all 16 bits of the
/// link count, uid and gid, all 32 bits of the block count and of the times and
/// their extra parts; the device is 0 and the inode number is the one given.
pub proof fn lemma_inode_info_on_little_endian(ino: u32, raw: RawInode)
    requires
        endianness() is Little,
    ensures
        inode_info_of(ino, raw).dev == 0,
        inode_info_of(ino, raw).st_ino == ino,
        inode_info_of(ino, raw).nlink == raw.links_count as u32,
        inode_info_of(ino, raw).uid == raw.uid,
        inode_info_of(ino, raw).gid == raw.gid,
        inode_info_of(ino, raw).nblk_lo == raw.blocks_count_lo,
        inode_info_of(ino, raw).atime == raw.access_time,
        inode_info_of(ino, raw).mtime == raw.modification_time,
        inode_info_of(ino, raw).ctime == raw.change_inode_time,
        inode_info_of(ino, raw).atime_ex == raw.atime_extra,
        inode_info_of(ino, raw).mtime_ex == raw.mtime_extra,
        inode_info_of(ino, raw).ctime_ex == raw.ctime_extra,
{
}

proof fn lemma_swap_u16_bytes(x: u16)
    ensures
        le_bytes_u16(swap_u16(x)) == le_bytes_u16(x).reverse(),
{
    let y = swap_u16(x);
    assert(y % 256 == x / 256);
    assert(y / 256 == x % 256);
    assert(le_bytes_u16(y) =~= le_bytes_u16(x).reverse());
}

proof fn lemma_swap_u32_bytes(x: u32)
    ensures
        le_bytes_u32(swap_u32(x)) == le_bytes_u32(x).reverse(),
{
    let b0: int = (x % 256) as int;
    let b1: int = ((x / 256) % 256) as int;
    let b2: int = ((x / 65536) % 256) as int;
    let b3: int = (x / 16777216) as int;
    assert(0 <= b3 < 256);
    let y: int = b0 * 16777216 + b1 * 65536 + b2 * 256 + b3;
    assert(y == swap_u32(x));
    let q1: int = b0 * 65536 + b1 * 256 + b2;
    let q2: int = b0 * 256 + b1;
    lemma_fundamental_div_mod_converse(y, 256, q1, b3);
    lemma_fundamental_div_mod_converse(q1, 256, q2, b2);
    lemma_fundamental_div_mod_converse(q2, 256, b0, b1);
    lemma_fundamental_div_mod_converse(y, 65536, q2, b2 * 256 + b3);
    lemma_fundamental_div_mod_converse(y, 16777216, b0, b1 * 65536 + b2 * 256 + b3);
    let z = swap_u32(x);
    assert(z % 256 == b3);
    assert((z / 256) % 256 == b2);
    assert((z / 65536) % 256 == b1);
    assert(z / 16777216 == b0);
    assert(le_bytes_u32(z) =~= le_bytes_u32(x).reverse());
}

/// On big-endian hardware each field's bytes are reversed: the least
/// significant byte of a decoded value is the most significant byte of the
/// raw field, and so on, for every field of every width.
pub proof fn lemma_inode_info_on_big_endian(ino: u32, raw: RawInode)
    requires
        endianness() is Big,
    ensures
        inode_info_of(ino, raw).dev == 0,
        inode_info_of(ino, raw).st_ino == ino,
        le_bytes_u16(inode_info_of(ino, raw).nlink as u16) == le_bytes_u16(raw.links_count).reverse(),
        inode_info_of(ino, raw).nlink <= 0xFFFF,
        le_bytes_u16(inode_info_of(ino, raw).uid) == le_bytes_u16(raw.uid).reverse(),
        le_bytes_u16(inode_info_of(ino, raw).gid) == le_bytes_u16(raw.gid).reverse(),
        le_bytes_u32(inode_info_of(ino, raw).nblk_lo) == le_bytes_u32(raw.blocks_count_lo).reverse(),
        le_bytes_u32(inode_info_of(ino, raw).atime) == le_bytes_u32(raw.access_time).reverse(),
        le_bytes_u32(inode_info_of(ino, raw).mtime) == le_bytes_u32(raw.modification_time).reverse(),
        le_bytes_u32(inode_info_of(ino, raw).ctime) == le_bytes_u32(raw.change_inode_time).reverse(),
        le_bytes_u32(inode_info_of(ino, raw).atime_ex) == le_bytes_u32(raw.atime_extra).reverse(),
        le_bytes_u32(inode_info_of(ino, raw).mtime_ex) == le_bytes_u32(raw.mtime_extra).reverse(),
        le_bytes_u32(inode_info_of(ino, raw).ctime_ex) == le_bytes_u32(raw.ctime_extra).reverse(),
{
    lemma_swap_u16_bytes(raw.links_count);
    lemma_swap_u16_bytes(raw.uid);
    lemma_swap_u16_bytes(raw.gid);
    lemma_swap_u32_bytes(raw.blocks_count_lo);
    lemma_swap_u32_bytes(raw.access_time);
    lemma_swap_u32_bytes(raw.modification_time);
    lemma_swap_u32_bytes(raw.change_inode_time);
    lemma_swap_u32_bytes(raw.atime_extra);
    lemma_swap_u32_bytes(raw.mtime_extra);
    lemma_swap_u32_bytes(raw.ctime_extra);
}

} // verus!
