use vstd::prelude::*;
use crate::lane::{lane_byte, lane_of};

verus! {

/// Number of source bytes that a window of `width` bytes starting at `offset`
/// can take from a buffer of `len` bytes: `len - offset`, held between zero
/// and `width`.
pub open spec fn usable_len(len: nat, offset: nat, width: nat) -> nat {
    if offset >= len {
        0
    } else if len - offset >= width {
        width
    } else {
        (len - offset) as nat
    }
}

/// The fixed vector of `width` bytes read from `buffer` at `offset`: position
/// `i` holds `buffer[offset + i]` where the buffer reaches that far, and zero
/// where it does not.
pub open spec fn window(buffer: Seq<u8>, offset: nat, width: nat) -> Seq<u8> {
    Seq::new(
        width,
        |i: int|
            if offset + i < buffer.len() {
                buffer[offset + i]
            } else {
                0u8
            },
    )
}

/// Byte-wise exclusive-or of two vectors: position `i` holds `a[i] ^ b[i]`.
/// The result is as long as `a`.
pub open spec fn xor_bytes(a: Seq<u8>, b: Seq<u8>) -> Seq<u8>
    recommends
        a.len() == b.len(),
{
    Seq::new(a.len(), |i: int| a[i] ^ b[i])
}

/// The all-zero vector of `width` bytes.
pub open spec fn zero_vector(width: nat) -> Seq<u8> {
    Seq::new(width, |i: int| 0u8)
}

/// Lane number `k` of a vector: the 128-bit value of its bytes `16k` to
/// `16k + 15`, the first of them least significant.
pub open spec fn lane_at(v: Seq<u8>, k: int) -> u128 {
    lane_of(v.subrange(16 * k, 16 * k + 16))
}

/// Exclusive-or carried out on whole registers: each lane of `a` is combined
/// with the same lane of `b` by one 128-bit exclusive-or, and byte `i` of the
/// result is read from lane `i / 16` at place `i % 16`.
pub open spec fn lanes_xor(a: Seq<u8>, b: Seq<u8>) -> Seq<u8>
    recommends
        a.len() == b.len(),
        a.len() % 16 == 0,
{
    Seq::new(
        a.len(),
        |i: int| lane_byte(lane_at(a, i / 16) ^ lane_at(b, i / 16), (i % 16) as u128),
    )
}

/// Exclusive-or of two 32-byte vectors carried out as two separate 16-byte
/// operations: the first on bytes 0 to 15, the second on bytes 16 to 31,
/// their results joined in that order.
pub open spec fn paired_xor(a: Seq<u8>, b: Seq<u8>) -> Seq<u8>
    recommends
        a.len() == 32,
        b.len() == 32,
{
    lanes_xor(a.subrange(0, 16), b.subrange(0, 16)) + lanes_xor(
        a.subrange(16, 32),
        b.subrange(16, 32),
    )
}

} // verus!
