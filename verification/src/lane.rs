use vstd::prelude::*;

verus! {

/// Byte `i` of a 128-bit lane, counted from the least significant end.
pub open spec fn lane_byte(x: u128, i: u128) -> u8 {
    ((x >> (8 * i)) & 0xff) as u8
}

/// The sixteen bytes of a lane, least significant first.
pub open spec fn lane_bytes(x: u128) -> Seq<u8> {
    Seq::new(16, |i: int| lane_byte(x, i as u128))
}

/// The lane whose little-endian bytes are `s`: `s[0]` is the least
/// significant byte.
pub open spec fn lane_of(s: Seq<u8>) -> u128
    recommends
        s.len() <= 16,
    decreases s.len(),
{
    if s.len() == 0 {
        0
    } else {
        (s[0] as u128) | (lane_of(s.drop_first()) << 8)
    }
}

proof fn lemma_push_low_byte(b: u8, r: u128, i: u128)
    by (bit_vector)
    requires
        i < 16,
    ensures
        i == 0 ==> lane_byte((b as u128) | (r << 8), i) == b,
        i > 0 ==> lane_byte((b as u128) | (r << 8), i) == lane_byte(r, (i - 1) as u128),
{
}

proof fn lemma_zero_lane_byte(i: u128)
    by (bit_vector)
    requires
        i < 16,
    ensures
        lane_byte(0, i) == 0,
{
}

/// Reading a lane back byte by byte gives the bytes it was made from, and
/// zero beyond them.
pub proof fn lemma_lane_of_bytes(s: Seq<u8>, i: int)
    requires
        s.len() <= 16,
        0 <= i < 16,
    ensures
        lane_byte(lane_of(s), i as u128) == (if i < s.len() {
            s[i]
        } else {
            0u8
        }),
    decreases s.len(),
{
    if s.len() == 0 {
        lemma_zero_lane_byte(i as u128);
    } else {
        let rest = s.drop_first();
        lemma_push_low_byte(s[0], lane_of(rest), i as u128);
        if i > 0 {
            lemma_lane_of_bytes(rest, i - 1);
        }
    }
}

/// Exclusive-or of two lanes acts on each byte by itself.
pub proof fn lemma_lane_xor_byte(x: u128, y: u128, i: u128)
    by (bit_vector)
    requires
        i < 16,
    ensures
        lane_byte(x ^ y, i) == lane_byte(x, i) ^ lane_byte(y, i),
{
}

/// Loads sixteen little-endian bytes into one 128-bit lane.
///
/// Trusted: the body is `u128::from_le_bytes`, which std documents as giving
/// the integer whose little-endian byte representation is the argument. The
/// contract says that and no more.
#[verifier::external_body]
pub(crate) fn lane_load(bytes: &[u8; 16]) -> (x: u128)
    ensures
        x == lane_of(bytes@),
{
    u128::from_le_bytes(*bytes)
}

/// Stores one 128-bit lane as sixteen little-endian bytes.
///
/// Trusted: the body is `u128::to_le_bytes`, which std documents as giving
/// the integer's memory representation as a byte array in little-endian
/// order. The contract says that and no more.
#[verifier::external_body]
pub(crate) fn lane_store(x: u128) -> (bytes: [u8; 16])
    ensures
        bytes@ == lane_bytes(x),
{
    x.to_le_bytes()
}

} // verus!
