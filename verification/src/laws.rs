use vstd::prelude::*;
use crate::cpu::{accelerated_128, accelerated_256, accelerated_512, path_128, path_256, path_512};
use crate::cpu::{CpuFeatures, XorPath};
use crate::lane::{lane_of, lemma_lane_of_bytes, lemma_lane_xor_byte};
use crate::model::{lanes_xor, paired_xor, usable_len, window, xor_bytes, zero_vector};

verus! {

proof fn lemma_xor_byte_facts(x: u8, y: u8)
    by (bit_vector)
    ensures
        (x ^ y) ^ y == x,
        x ^ y == y ^ x,
        x ^ 0 == x,
{
}

/// Exclusive-or is its own inverse: combining the result with `b` once more
/// gives `a` back.
pub proof fn xor_self_inverse(a: Seq<u8>, b: Seq<u8>)
    requires
        a.len() == b.len(),
    ensures
        xor_bytes(xor_bytes(a, b), b) == a,
{
    assert forall|i: int| 0 <= i < a.len() implies xor_bytes(xor_bytes(a, b), b)[i] == a[i] by {
        lemma_xor_byte_facts(a[i], b[i]);
    }
    assert(xor_bytes(xor_bytes(a, b), b) =~= a);
}

/// Exclusive-or does not depend on the order of its operands.
pub proof fn xor_commutative(a: Seq<u8>, b: Seq<u8>)
    requires
        a.len() == b.len(),
    ensures
        xor_bytes(a, b) == xor_bytes(b, a),
{
    assert forall|i: int| 0 <= i < a.len() implies xor_bytes(a, b)[i] == xor_bytes(b, a)[i] by {
        lemma_xor_byte_facts(a[i], b[i]);
    }
    assert(xor_bytes(a, b) =~= xor_bytes(b, a));
}

/// The all-zero vector is the identity of exclusive-or.
pub proof fn xor_identity(a: Seq<u8>)
    ensures
        xor_bytes(a, zero_vector(a.len())) == a,
{
    assert forall|i: int| 0 <= i < a.len() implies xor_bytes(a, zero_vector(a.len()))[i]
        == a[i] by {
        lemma_xor_byte_facts(a[i], 0u8);
    }
    assert(xor_bytes(a, zero_vector(a.len())) =~= a);
}

/// The register path and the byte path give the same bytes: for vectors made
/// of whole lanes, exclusive-or lane by lane equals exclusive-or byte by byte.
pub proof fn cross_path_equivalence(a: Seq<u8>, b: Seq<u8>)
    requires
        a.len() == b.len(),
        a.len() % 16 == 0,
    ensures
        lanes_xor(a, b) == xor_bytes(a, b),
{
    assert forall|i: int| 0 <= i < a.len() implies lanes_xor(a, b)[i] == xor_bytes(a, b)[i] by {
        let k = i / 16;
        let j = i % 16;
        let lane_a = a.subrange(16 * k, 16 * k + 16);
        let lane_b = b.subrange(16 * k, 16 * k + 16);
        lemma_lane_xor_byte(lane_of(lane_a), lane_of(lane_b), j as u128);
        lemma_lane_of_bytes(lane_a, j);
        lemma_lane_of_bytes(lane_b, j);
    }
    assert(lanes_xor(a, b) =~= xor_bytes(a, b));
}

/// Splitting a 256-bit exclusive-or into two 128-bit operations changes
/// nothing: the joined halves equal exclusive-or byte by byte over all 32
/// bytes, on both sides of the boundary at byte 16.
pub proof fn split_equivalence(a: Seq<u8>, b: Seq<u8>)
    requires
        a.len() == 32,
        b.len() == 32,
    ensures
        paired_xor(a, b) == xor_bytes(a, b),
        paired_xor(a, b) == lanes_xor(a, b),
{
    cross_path_equivalence(a.subrange(0, 16), b.subrange(0, 16));
    cross_path_equivalence(a.subrange(16, 32), b.subrange(16, 32));
    cross_path_equivalence(a, b);
    assert(paired_xor(a, b) =~= xor_bytes(a, b));
}

/// A window is a copy followed by zeros: its first `usable_len` bytes are
/// the buffer's bytes from `offset` on, and every byte after them is zero.
/// Nothing is read beyond the buffer's end, and an offset at or past the end
/// gives the all-zero vector.
pub proof fn window_copy_and_fill(buffer: Seq<u8>, offset: nat, width: nat)
    ensures
        ({
            let n = usable_len(buffer.len(), offset, width);
            &&& n <= width
            &&& n > 0 ==> offset + n <= buffer.len()
            &&& n > 0 ==> window(buffer, offset, width) == buffer.subrange(
                offset as int,
                (offset + n) as int,
            ) + zero_vector((width - n) as nat)
            &&& n == 0 ==> window(buffer, offset, width) == zero_vector(width)
        }),
{
    let n = usable_len(buffer.len(), offset, width);
    if n > 0 {
        assert(window(buffer, offset, width) =~= buffer.subrange(
            offset as int,
            (offset + n) as int,
        ) + zero_vector((width - n) as nat));
    } else {
        assert(window(buffer, offset, width) =~= zero_vector(width));
    }
}

/// Each width answers from its own feature bit. On one architecture, two
/// processors that agree on the 512-bit bit get the same 512-bit answers
/// whatever their 128- and 256-bit bits are, and two that agree on the 128-bit
/// (or 256-bit) bit get the same 128-bit (or 256-bit) answers whatever their
/// 512-bit bit is.
pub proof fn width_isolation(c1: CpuFeatures, c2: CpuFeatures)
    requires
        c1.arch == c2.arch,
    ensures
        c1.avx512f == c2.avx512f ==> accelerated_512(c1) == accelerated_512(c2) && path_512(c1)
            == path_512(c2),
        c1.sse2 == c2.sse2 ==> accelerated_128(c1) == accelerated_128(c2) && path_128(c1)
            == path_128(c2),
        c1.avx2 == c2.avx2 ==> accelerated_256(c1) == accelerated_256(c2) && path_256(c1)
            == path_256(c2),
{
}

/// A width counts as accelerated exactly when its exclusive-or does not take
/// the byte path. Only the 256-bit width ever takes the paired path.
pub proof fn accelerated_means_hardware_path(cpu: CpuFeatures)
    ensures
        accelerated_128(cpu) == (path_128(cpu) != XorPath::Scalar),
        accelerated_256(cpu) == (path_256(cpu) != XorPath::Scalar),
        accelerated_512(cpu) == (path_512(cpu) != XorPath::Scalar),
        path_128(cpu) != XorPath::PairedNarrow,
        path_512(cpu) != XorPath::PairedNarrow,
{
}

} // verus!
