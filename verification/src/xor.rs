use vstd::prelude::*;
use crate::cpu::{select_path_128, select_path_256, select_path_512};
use crate::cpu::{CpuFeatures, XorPath};
use crate::create::fill_window;
use crate::lane::{lane_bytes, lane_load, lane_store};
use crate::laws::{cross_path_equivalence, split_equivalence};
use crate::model::{lane_at, lanes_xor, paired_xor, xor_bytes};

verus! {

/// Exclusive-or one byte at a time: the path that needs no vector hardware.
pub fn xor_scalar<const N: usize>(a: &[u8; N], b: &[u8; N], out: &mut [u8; N])
    ensures
        final(out)@ == xor_bytes(a@, b@),
{
    let mut result: [u8; N] = [0u8; N];
    let mut i: usize = 0;
    while i < N
        invariant
            i <= N,
            forall|j: int| 0 <= j < i ==> result@[j] == a@[j] ^ b@[j],
        decreases N - i,
    {
        result[i] = a[i] ^ b[i];
        i = i + 1;
    }
    assert(result@ =~= xor_bytes(a@, b@));
    *out = result;
}

/// Exclusive-or on whole registers: each 16-byte lane of the operands is
/// loaded, combined by one 128-bit exclusive-or, and stored. The vector must
/// be made of whole lanes, as the 16-, 32- and 64-byte vectors are.
pub fn xor_native<const N: usize>(a: &[u8; N], b: &[u8; N], out: &mut [u8; N])
    requires
        N % 16 == 0,
    ensures
        final(out)@ == lanes_xor(a@, b@),
        final(out)@ == xor_bytes(a@, b@),
{
    let mut result: [u8; N] = [0u8; N];
    let lanes: usize = N / 16;
    let mut k: usize = 0;
    while k < lanes
        invariant
            k <= lanes,
            lanes * 16 == N,
            forall|j: int| 0 <= j < 16 * k ==> result@[j] == lanes_xor(a@, b@)[j],
        decreases lanes - k,
    {
        let base: usize = k * 16;
        let mut lane_a: [u8; 16] = [0u8; 16];
        let mut lane_b: [u8; 16] = [0u8; 16];
        fill_window::<16>(a, base, &mut lane_a);
        fill_window::<16>(b, base, &mut lane_b);
        let combined: [u8; 16] = lane_store(lane_load(&lane_a) ^ lane_load(&lane_b));
        proof {
            assert(lane_a@ =~= a@.subrange(16 * k, 16 * k + 16));
            assert(lane_b@ =~= b@.subrange(16 * k, 16 * k + 16));
            assert(combined@ == lane_bytes(lane_at(a@, k as int) ^ lane_at(b@, k as int)));
        }
        let mut j: usize = 0;
        while j < 16
            invariant
                j <= 16,
                base == k * 16,
                base + 16 <= N,
                combined@ == lane_bytes(lane_at(a@, k as int) ^ lane_at(b@, k as int)),
                forall|t: int| 0 <= t < base + j ==> result@[t] == lanes_xor(a@, b@)[t],
            decreases 16 - j,
        {
            result[base + j] = combined[j];
            j = j + 1;
        }
        k = k + 1;
    }
    assert(result@ =~= lanes_xor(a@, b@));
    proof {
        cross_path_equivalence(a@, b@);
    }
    *out = result;
}

/// Exclusive-or of two 256-bit vectors on a pair of 128-bit registers: one
/// operation on the low half, one on the high half, joined low half first.
pub fn xor_paired(a: &[u8; 32], b: &[u8; 32], out: &mut [u8; 32])
    ensures
        final(out)@ == paired_xor(a@, b@),
        final(out)@ == xor_bytes(a@, b@),
{
    let mut a_low: [u8; 16] = [0u8; 16];
    let mut a_high: [u8; 16] = [0u8; 16];
    let mut b_low: [u8; 16] = [0u8; 16];
    let mut b_high: [u8; 16] = [0u8; 16];
    fill_window::<16>(a, 0, &mut a_low);
    fill_window::<16>(a, 16, &mut a_high);
    fill_window::<16>(b, 0, &mut b_low);
    fill_window::<16>(b, 16, &mut b_high);
    let mut low: [u8; 16] = [0u8; 16];
    let mut high: [u8; 16] = [0u8; 16];
    xor_native::<16>(&a_low, &b_low, &mut low);
    xor_native::<16>(&a_high, &b_high, &mut high);
    proof {
        assert(a_low@ =~= a@.subrange(0, 16));
        assert(a_high@ =~= a@.subrange(16, 32));
        assert(b_low@ =~= b@.subrange(0, 16));
        assert(b_high@ =~= b@.subrange(16, 32));
    }
    let mut result: [u8; 32] = [0u8; 32];
    let mut i: usize = 0;
    while i < 16
        invariant
            i <= 16,
            forall|j: int| 0 <= j < i ==> result@[j] == low@[j],
            forall|j: int| 0 <= j < i ==> result@[16 + j] == high@[j],
        decreases 16 - i,
    {
        result[i] = low[i];
        result[16 + i] = high[i];
        i = i + 1;
    }
    assert(result@ =~= low@ + high@);
    proof {
        split_equivalence(a@, b@);
    }
    *out = result;
}

/// Exclusive-or of two 128-bit vectors by the path that `cpu` calls for.
/// Whatever the path, byte `i` of `out` becomes `a[i] ^ b[i]`; what `out`
/// held before is overwritten.
pub fn Vector128_Xor(cpu: &CpuFeatures, a: &[u8; 16], b: &[u8; 16], out: &mut [u8; 16])
    ensures
        final(out)@ == xor_bytes(a@, b@),
{
    match select_path_128(cpu) {
        XorPath::NativeWide => {
            xor_native::<16>(a, b, out);
        },
        _ => {
            xor_scalar::<16>(a, b, out);
        },
    }
}

/// Exclusive-or of two 256-bit vectors by the path that `cpu` calls for.
/// Whatever the path, byte `i` of `out` becomes `a[i] ^ b[i]`; what `out`
/// held before is overwritten.
pub fn Vector256_Xor(cpu: &CpuFeatures, a: &[u8; 32], b: &[u8; 32], out: &mut [u8; 32])
    ensures
        final(out)@ == xor_bytes(a@, b@),
{
    match select_path_256(cpu) {
        XorPath::NativeWide => {
            xor_native::<32>(a, b, out);
        },
        XorPath::PairedNarrow => {
            xor_paired(a, b, out);
        },
        XorPath::Scalar => {
            xor_scalar::<32>(a, b, out);
        },
    }
}

/// Exclusive-or of two 512-bit vectors by the path that `cpu` calls for.
/// Whatever the path, byte `i` of `out` becomes `a[i] ^ b[i]`; what `out`
/// held before is overwritten.
pub fn Vector512_Xor(cpu: &CpuFeatures, a: &[u8; 64], b: &[u8; 64], out: &mut [u8; 64])
    ensures
        final(out)@ == xor_bytes(a@, b@),
{
    match select_path_512(cpu) {
        XorPath::NativeWide => {
            xor_native::<64>(a, b, out);
        },
        _ => {
            xor_scalar::<64>(a, b, out);
        },
    }
}

} // verus!
