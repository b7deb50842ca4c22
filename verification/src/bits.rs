//! Bit-level view of a packed byte image.
//!
//! The hardware exchanges its I/O image as raw bytes; channel `i` lives in
//! byte `i / 8` at bit position `i % 8` (least-significant bit first).  The
//! functions here give the packed image a boolean view and are the only
//! place where shifting and masking happen.

use vstd::prelude::*;

verus! {

/// The value of channel `i` in the packed image `bytes`.
pub open spec fn spec_bit(bytes: Seq<u8>, i: int) -> bool
    recommends
        0 <= i,
        i / 8 < bytes.len(),
{
    (bytes[i / 8] >> ((i % 8) as u8)) & 1 == 1
}

/// How many bytes a packed image needs to carry `bits` channels.
pub open spec fn spec_byte_len(bits: u16) -> int {
    (bits + 7) / 8
}

/// Executable form of [`spec_byte_len`].
pub fn byte_len(bits: u16) -> (n: usize)
    ensures
        n == spec_byte_len(bits),
{
    ((bits as usize) + 7) / 8
}

/// Reads the value of channel `i` from the packed image.
pub fn get_bit(bytes: &[u8], i: usize) -> (b: bool)
    requires
        i / 8 < bytes@.len(),
    ensures
        b == spec_bit(bytes@, i as int),
{
    let byte: u8 = bytes[i / 8];
    let off: u8 = (i % 8) as u8;
    ((byte >> off) & 1) == 1
}

/// Setting one bit of a byte by OR leaves every other bit as it was.
proof fn lemma_or_bit(b: u8, off: u8, k: u8)
    requires
        off < 8,
        k < 8,
    ensures
        ((b | (1u8 << off)) >> k) & 1 == if k == off {
            1u8
        } else {
            (b >> k) & 1
        },
{
    assert(((b | (1u8 << off)) >> k) & 1 == if k == off {
        1u8
    } else {
        (b >> k) & 1
    }) by (bit_vector)
        requires
            off < 8,
            k < 8,
    ;
}

/// A zero byte has no bit set.
proof fn lemma_zero_bit(k: u8)
    requires
        k < 8,
    ensures
        (0u8 >> k) & 1 == 0u8,
{
    assert((0u8 >> k) & 1 == 0u8) by (bit_vector)
        requires
            k < 8,
    ;
}

/// Packs the boolean channels `start .. start + 8` of `channels` into one
/// byte, least-significant bit first; channels past the end of `channels`
/// pack as zero.
pub fn pack_byte(channels: &[bool], start: usize) -> (byte: u8)
    requires
        start <= usize::MAX - 8,
    ensures
        forall|k: int|
            #![trigger byte >> (k as u8)]
            0 <= k < 8 ==> ((byte >> (k as u8)) & 1 == 1) == if start + k
                < channels@.len() {
                channels@[start + k]
            } else {
                false
            },
{
    let mut byte: u8 = 0;
    proof {
        assert forall|k: int| #![trigger 0u8 >> (k as u8)] 0 <= k < 8 implies (0u8 >> (k as u8)) & 1
            == 0u8 by {
            lemma_zero_bit(k as u8);
        }
    }
    for j in 0..8usize
        invariant
            start <= usize::MAX - 8,
            forall|k: int|
                #![trigger byte >> (k as u8)]
                0 <= k < j ==> ((byte >> (k as u8)) & 1 == 1) == if start + k
                    < channels@.len() {
                    channels@[start + k]
                } else {
                    false
                },
            forall|k: int| #![trigger byte >> (k as u8)] j <= k < 8 ==> (byte >> (k as u8)) & 1 == 0,
    {
        let on: bool = if start + j < channels.len() {
            channels[start + j]
        } else {
            false
        };
        if on {
            let old_byte: u8 = byte;
            byte = byte | (1u8 << (j as u8));
            proof {
                assert forall|k: int| #![trigger byte >> (k as u8)] 0 <= k < 8 implies ((byte >> (
                k as u8)) & 1)
                    == if k == j {
                    1u8
                } else {
                    (old_byte >> (k as u8)) & 1
                } by {
                    lemma_or_bit(old_byte, j as u8, k as u8);
                }
            }
        }
    }
    byte
}

} // verus!
