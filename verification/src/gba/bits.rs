//! Little-endian byte access and the handful of bit facts the rest of the
//! machine relies on.
use vstd::prelude::*;

verus! {

/// The halfword stored little-endian at byte `i` of `s`.
pub open spec fn le16(s: Seq<u8>, i: int) -> u16 {
    (s[i] as int + 256 * s[i + 1] as int) as u16
}

/// The word stored little-endian at byte `i` of `s`.
pub open spec fn le32(s: Seq<u8>, i: int) -> u32 {
    (le16(s, i) as int + 65536 * le16(s, i + 2) as int) as u32
}

/// The low byte of a halfword.
pub open spec fn lo8(v: u16) -> u8 {
    (v % 256) as u8
}

/// The high byte of a halfword.
pub open spec fn hi8(v: u16) -> u8 {
    (v / 256) as u8
}

/// `s` with the halfword `v` stored little-endian at byte `i`.
pub open spec fn put16(s: Seq<u8>, i: int, v: u16) -> Seq<u8> {
    s.update(i, lo8(v)).update(i + 1, hi8(v))
}

/// `s` with the word `v` stored little-endian at byte `i`.
pub open spec fn put32(s: Seq<u8>, i: int, v: u32) -> Seq<u8> {
    put16(put16(s, i, (v % 65536) as u16), i + 2, (v / 65536) as u16)
}

/// Reading back a halfword that was just stored gives it back.
pub proof fn lemma_le16_put16(s: Seq<u8>, i: int, v: u16)
    requires
        0 <= i,
        i + 1 < s.len(),
    ensures
        le16(put16(s, i, v), i) == v,
        put16(s, i, v).len() == s.len(),
{
}

/// Bit masks and shifts never enlarge a value.
pub proof fn lemma_bits_u16(x: u16, m: u16, n: u16)
    by (bit_vector)
    ensures
        x & m <= m,
        x & m <= x,
        x >> n <= x,
        x | m >= x,
        x | m >= m,
        n < 16 ==> (x >> n) == x / (1u16 << n),
{
}

/// The two nibbles of a byte.
pub proof fn lemma_bits_u8(x: u8)
    by (bit_vector)
    ensures
        x & 0x0f <= 0x0f,
        x >> 4u8 <= 0x0f,
{
}

/// Bit masks and shifts never enlarge a value.
pub proof fn lemma_bits_u32(x: u32, m: u32)
    by (bit_vector)
    ensures
        x & m <= m,
        x & m <= x,
        x | m >= x,
{
}

/// Reads the little-endian halfword at byte `i`.
pub fn read_u16(memory: &[u8], offset: usize) -> (r: u16)
    requires
        offset + 1 < memory@.len(),
    ensures
        r == le16(memory@, offset as int),
{
    memory[offset] as u16 + (memory[offset + 1] as u16) * 256
}

/// Reads the little-endian halfword at byte `i`, or `None` where the slice
/// is too short to hold it.
pub fn read_u16_checked(memory: &[u8], offset: usize) -> (r: Option<u16>)
    ensures
        r == (if offset + 1 < memory@.len() { Some(le16(memory@, offset as int)) } else { None::<u16> }),
{
    if offset < memory.len() && memory.len() - offset > 1 {
        Some(read_u16(memory, offset))
    } else {
        None
    }
}

/// Reads the little-endian word at byte `i`.
pub fn read_u32(memory: &[u8], offset: usize) -> (r: u32)
    requires
        offset + 3 < memory@.len(),
    ensures
        r == le32(memory@, offset as int),
{
    let len = memory.len();
    let lo = read_u16(memory, offset) as u32;
    let hi = read_u16(memory, offset + 2) as u32;
    lo + hi * 65536
}

/// Stores `value` little-endian at byte `offset`.
pub fn write_u16(memory: &mut Vec<u8>, offset: usize, value: u16)
    requires
        offset + 1 < old(memory)@.len(),
    ensures
        final(memory)@ == put16(old(memory)@, offset as int, value),
{
    let len = memory.len();
    memory.set(offset, (value % 256) as u8);
    memory.set(offset + 1, (value / 256) as u8);
}

/// Stores `value` little-endian at byte `offset`.
pub fn write_u32(memory: &mut Vec<u8>, offset: usize, value: u32)
    requires
        offset + 3 < old(memory)@.len(),
    ensures
        final(memory)@ == put32(old(memory)@, offset as int, value),
{
    let len = memory.len();
    write_u16(memory, offset, (value % 65536) as u16);
    write_u16(memory, offset + 2, (value / 65536) as u16);
}

} // verus!
