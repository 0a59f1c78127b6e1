use byteorder::{BigEndian, ByteOrder, LittleEndian};
use vstd::prelude::*;

verus! {

/// Byte order of the numeric fields of one file-format version.
#[derive(Clone, Copy, Debug, PartialEq, Eq, Structural)]
pub enum Endian {
    Little,
    Big,
}

/// The 4-byte unsigned integer stored at `p` in byte order `e`.
pub open spec fn word32(e: Endian, s: Seq<u8>, p: int) -> u32 {
    match e {
        Endian::Little => (s[p] + 0x100 * s[p + 1] + 0x1_0000 * s[p + 2] + 0x100_0000 * s[p
            + 3]) as u32,
        Endian::Big => (s[p + 3] + 0x100 * s[p + 2] + 0x1_0000 * s[p + 1] + 0x100_0000
            * s[p]) as u32,
    }
}

/// The 8-byte word stored at `p` in byte order `e`; floating-point fields are
/// carried as this IEEE-754 bit pattern.
pub open spec fn word64(e: Endian, s: Seq<u8>, p: int) -> u64 {
    match e {
        Endian::Little => (word32(e, s, p) + 0x1_0000_0000 * word32(e, s, p + 4)) as u64,
        Endian::Big => (word32(e, s, p + 4) + 0x1_0000_0000 * word32(e, s, p)) as u64,
    }
}

/// Relies on byteorder's `LittleEndian::read_u32`: the first four bytes, least
/// significant first.
#[verifier::external_body]
fn le_u32(s: &[u8], pos: usize) -> (r: u32)
    requires
        pos + 4 <= s@.len(),
    ensures
        r == word32(Endian::Little, s@, pos as int),
{
    LittleEndian::read_u32(&s[pos..])
}

/// Relies on byteorder's `BigEndian::read_u32`: the first four bytes, most
/// significant first.
#[verifier::external_body]
fn be_u32(s: &[u8], pos: usize) -> (r: u32)
    requires
        pos + 4 <= s@.len(),
    ensures
        r == word32(Endian::Big, s@, pos as int),
{
    BigEndian::read_u32(&s[pos..])
}

/// Relies on byteorder's `LittleEndian::read_u64`: the first eight bytes, least
/// significant first.
#[verifier::external_body]
fn le_u64(s: &[u8], pos: usize) -> (r: u64)
    requires
        pos + 8 <= s@.len(),
    ensures
        r == word64(Endian::Little, s@, pos as int),
{
    LittleEndian::read_u64(&s[pos..])
}

/// Relies on byteorder's `BigEndian::read_u64`: the first eight bytes, most
/// significant first.
#[verifier::external_body]
fn be_u64(s: &[u8], pos: usize) -> (r: u64)
    requires
        pos + 8 <= s@.len(),
    ensures
        r == word64(Endian::Big, s@, pos as int),
{
    BigEndian::read_u64(&s[pos..])
}

/// Reads the 4-byte unsigned integer at `pos`.
pub fn read_u32(e: Endian, s: &[u8], pos: usize) -> (r: u32)
    requires
        pos + 4 <= s@.len(),
    ensures
        r == word32(e, s@, pos as int),
{
    match e {
        Endian::Little => le_u32(s, pos),
        Endian::Big => be_u32(s, pos),
    }
}

/// Reads the 8-byte word at `pos`.
pub fn read_u64(e: Endian, s: &[u8], pos: usize) -> (r: u64)
    requires
        pos + 8 <= s@.len(),
    ensures
        r == word64(e, s@, pos as int),
{
    match e {
        Endian::Little => le_u64(s, pos),
        Endian::Big => be_u64(s, pos),
    }
}

} // verus!
