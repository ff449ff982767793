//! Summaries of a frame and of the video state for headless runs.
use vstd::prelude::*;

verus! {

pub const FRAME_HASH_OFFSET: u64 = 0xcbf2_9ce4_8422_2325;
pub const FRAME_HASH_PRIME: u64 = 0x0000_0100_0000_01b3;

/// FNV-1a over the pixels: each pixel is xored into the hash, which is
/// then multiplied by the prime (modulo 2^64).
pub open spec fn spec_frame_hash(frame: Seq<u32>) -> u64
    decreases frame.len(),
{
    if frame.len() == 0 {
        FRAME_HASH_OFFSET
    } else {
        (spec_frame_hash(frame.drop_last()) ^ (frame.last() as u64)).wrapping_mul(FRAME_HASH_PRIME)
    }
}

/// FNV-1a hash of the frame's pixels.
pub fn frame_hash(frame: &[u32]) -> (r: u64)
    ensures
        r == spec_frame_hash(frame@),
{
    let mut hash = FRAME_HASH_OFFSET;
    let mut i: usize = 0;
    while i < frame.len()
        invariant
            i <= frame@.len(),
            hash == spec_frame_hash(frame@.subrange(0, i as int)),
        decreases frame@.len() - i,
    {
        proof {
            assert(frame@.subrange(0, i + 1).drop_last() =~= frame@.subrange(0, i as int));
        }
        hash = (hash ^ frame[i] as u64).wrapping_mul(FRAME_HASH_PRIME);
        i += 1;
    }
    assert(frame@.subrange(0, frame@.len() as int) =~= frame@);
    hash
}

/// Number of pixels that are not black: some colour bit (bits 0-23) set,
/// whatever the alpha byte.
pub open spec fn spec_lit_pixels(frame: Seq<u32>) -> nat
    decreases frame.len(),
{
    if frame.len() == 0 { 0 } else { spec_lit_pixels(frame.drop_last()) + if frame.last() & 0x00ff_ffff != 0 { 1nat } else { 0 } }
}

/// Number of pixels that are not black (see `spec_lit_pixels`).
pub fn lit_pixels(frame: &[u32]) -> (r: usize)
    ensures
        r == spec_lit_pixels(frame@),
{
    let mut count: usize = 0;
    let mut i: usize = 0;
    while i < frame.len()
        invariant
            i <= frame@.len(),
            count == spec_lit_pixels(frame@.subrange(0, i as int)),
            count <= i,
        decreases frame@.len() - i,
    {
        proof {
            assert(frame@.subrange(0, i + 1).drop_last() =~= frame@.subrange(0, i as int));
        }
        if frame[i] & 0x00ff_ffff != 0 {
            count += 1;
        }
        i += 1;
    }
    assert(frame@.subrange(0, frame@.len() as int) =~= frame@);
    count
}

/// std's `char::from_u32`: the char with scalar value `v`, when `v` is one
/// (at most 0x10FFFF and not a surrogate); the contract states that.
#[verifier::external_body]
fn char_from_u32(v: u32) -> (r: Option<char>)
    ensures
        (v < 0xd800 || 0xe000 <= v <= 0x10ffff) ==> r == Some(v as char),
        !(v < 0xd800 || 0xe000 <= v <= 0x10ffff) ==> r is None,
{
    char::from_u32(v)
}

/// The character a text-layer tile shows: tile numbers count from the
/// space character.
pub fn tile_ascii(tile: u16) -> (r: char)
    ensures
        r == (((tile & 0x00ff) as u32 + 32) as char),
{
    assert(tile & 0x00ff <= 0x00ff) by (bit_vector);
    let value = (tile & 0x00ff) as u32 + 32;
    match char_from_u32(value) {
        Some(c) => c,
        None => '?',
    }
}

} // verus!
