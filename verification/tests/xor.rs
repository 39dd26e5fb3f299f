use simd_vector::xor::{xor_native, xor_paired, xor_scalar};
use simd_vector::{Arch, CpuFeatures};
use simd_vector::{Vector128_Create, Vector128_Xor, Vector256_Xor, Vector512_Xor};

fn every_cpu() -> Vec<CpuFeatures> {
    let mut v = Vec::new();
    for arch in [Arch::X86, Arch::Arm, Arch::Other] {
        for bits in 0..8u8 {
            v.push(CpuFeatures {
                arch,
                sse2: bits & 1 != 0,
                avx2: bits & 2 != 0,
                avx512f: bits & 4 != 0,
            });
        }
    }
    v
}

fn pattern<const N: usize>(seed: u8, step: u8) -> [u8; N] {
    let mut v = [0u8; N];
    let mut x = seed;
    for i in 0..N {
        v[i] = x;
        x = x.wrapping_mul(step).wrapping_add(i as u8 ^ 0x5B);
    }
    v
}

fn bytewise<const N: usize>(a: &[u8; N], b: &[u8; N]) -> [u8; N] {
    let mut v = [0u8; N];
    for i in 0..N {
        v[i] = a[i] ^ b[i];
    }
    v
}

#[test]
fn xor_128_known_values() {
    let a: [u8; 16] = [
        0x00, 0x01, 0x02, 0x03, 0x04, 0x05, 0x06, 0x07, 0x08, 0x09, 0x0A, 0x0B, 0x0C, 0x0D, 0x0E,
        0x0F,
    ];
    let b: [u8; 16] = [
        0xFF, 0xFF, 0xFF, 0xFF, 0x0F, 0x0F, 0x0F, 0x0F, 0xF0, 0xF0, 0xF0, 0xF0, 0x00, 0x00, 0x00,
        0x80,
    ];
    let expected: [u8; 16] = [
        0xFF, 0xFE, 0xFD, 0xFC, 0x0B, 0x0A, 0x09, 0x08, 0xF8, 0xF9, 0xFA, 0xFB, 0x0C, 0x0D, 0x0E,
        0x8F,
    ];
    for cpu in every_cpu() {
        let mut out = [0x33u8; 16];
        Vector128_Xor(&cpu, &a, &b, &mut out);
        assert_eq!(out, expected);
    }
}

#[test]
fn xor_256_on_every_cpu() {
    let a = pattern::<32>(0x12, 7);
    let b = pattern::<32>(0xC4, 13);
    let expected = bytewise(&a, &b);
    for cpu in every_cpu() {
        let mut out = [0x33u8; 32];
        Vector256_Xor(&cpu, &a, &b, &mut out);
        assert_eq!(out, expected);
    }
}

#[test]
fn xor_512_on_every_cpu() {
    let a = pattern::<64>(0x9E, 5);
    let b = pattern::<64>(0x31, 11);
    let expected = bytewise(&a, &b);
    for cpu in every_cpu() {
        let mut out = [0x33u8; 64];
        Vector512_Xor(&cpu, &a, &b, &mut out);
        assert_eq!(out, expected);
    }
}

#[test]
fn xor_is_its_own_inverse() {
    let cpus = every_cpu();
    let a16 = pattern::<16>(1, 3);
    let b16 = pattern::<16>(200, 9);
    let a32 = pattern::<32>(2, 3);
    let b32 = pattern::<32>(201, 9);
    let a64 = pattern::<64>(3, 3);
    let b64 = pattern::<64>(202, 9);
    for cpu in cpus {
        let mut mid16 = [0u8; 16];
        let mut back16 = [0u8; 16];
        Vector128_Xor(&cpu, &a16, &b16, &mut mid16);
        Vector128_Xor(&cpu, &mid16, &b16, &mut back16);
        assert_eq!(back16, a16);
        let mut mid32 = [0u8; 32];
        let mut back32 = [0u8; 32];
        Vector256_Xor(&cpu, &a32, &b32, &mut mid32);
        Vector256_Xor(&cpu, &mid32, &b32, &mut back32);
        assert_eq!(back32, a32);
        let mut mid64 = [0u8; 64];
        let mut back64 = [0u8; 64];
        Vector512_Xor(&cpu, &a64, &b64, &mut mid64);
        Vector512_Xor(&cpu, &mid64, &b64, &mut back64);
        assert_eq!(back64, a64);
    }
}

#[test]
fn xor_is_commutative() {
    let a16 = pattern::<16>(17, 3);
    let b16 = pattern::<16>(99, 5);
    let a32 = pattern::<32>(18, 3);
    let b32 = pattern::<32>(98, 5);
    let a64 = pattern::<64>(19, 3);
    let b64 = pattern::<64>(97, 5);
    for cpu in every_cpu() {
        let mut ab16 = [0u8; 16];
        let mut ba16 = [0u8; 16];
        Vector128_Xor(&cpu, &a16, &b16, &mut ab16);
        Vector128_Xor(&cpu, &b16, &a16, &mut ba16);
        assert_eq!(ab16, ba16);
        let mut ab32 = [0u8; 32];
        let mut ba32 = [0u8; 32];
        Vector256_Xor(&cpu, &a32, &b32, &mut ab32);
        Vector256_Xor(&cpu, &b32, &a32, &mut ba32);
        assert_eq!(ab32, ba32);
        let mut ab64 = [0u8; 64];
        let mut ba64 = [0u8; 64];
        Vector512_Xor(&cpu, &a64, &b64, &mut ab64);
        Vector512_Xor(&cpu, &b64, &a64, &mut ba64);
        assert_eq!(ab64, ba64);
    }
}

#[test]
fn xor_with_zero_is_identity() {
    let a16 = pattern::<16>(41, 7);
    let a32 = pattern::<32>(42, 7);
    let a64 = pattern::<64>(43, 7);
    for cpu in every_cpu() {
        let mut out16 = [0xFFu8; 16];
        Vector128_Xor(&cpu, &a16, &[0u8; 16], &mut out16);
        assert_eq!(out16, a16);
        let mut out32 = [0xFFu8; 32];
        Vector256_Xor(&cpu, &a32, &[0u8; 32], &mut out32);
        assert_eq!(out32, a32);
        let mut out64 = [0xFFu8; 64];
        Vector512_Xor(&cpu, &a64, &[0u8; 64], &mut out64);
        assert_eq!(out64, a64);
    }
}

#[test]
fn xor_with_itself_is_zero() {
    let a = pattern::<64>(77, 3);
    for cpu in every_cpu() {
        let mut out = [0xFFu8; 64];
        Vector512_Xor(&cpu, &a, &a, &mut out);
        assert_eq!(out, [0u8; 64]);
    }
}

#[test]
fn register_path_matches_byte_path() {
    let a16 = pattern::<16>(5, 3);
    let b16 = pattern::<16>(250, 7);
    let mut wide16 = [0u8; 16];
    let mut narrow16 = [1u8; 16];
    xor_native::<16>(&a16, &b16, &mut wide16);
    xor_scalar::<16>(&a16, &b16, &mut narrow16);
    assert_eq!(wide16, narrow16);
    assert_eq!(wide16, bytewise(&a16, &b16));

    let a32 = pattern::<32>(6, 3);
    let b32 = pattern::<32>(251, 7);
    let mut wide32 = [0u8; 32];
    let mut narrow32 = [1u8; 32];
    xor_native::<32>(&a32, &b32, &mut wide32);
    xor_scalar::<32>(&a32, &b32, &mut narrow32);
    assert_eq!(wide32, narrow32);
    assert_eq!(wide32, bytewise(&a32, &b32));

    let a64 = pattern::<64>(7, 3);
    let b64 = pattern::<64>(252, 7);
    let mut wide64 = [0u8; 64];
    let mut narrow64 = [1u8; 64];
    xor_native::<64>(&a64, &b64, &mut wide64);
    xor_scalar::<64>(&a64, &b64, &mut narrow64);
    assert_eq!(wide64, narrow64);
    assert_eq!(wide64, bytewise(&a64, &b64));
}

#[test]
fn register_path_keeps_byte_order() {
    let mut a = [0u8; 16];
    for i in 0..16 {
        a[i] = i as u8 + 1;
    }
    let mut b = [0u8; 16];
    b[0] = 0x80;
    b[15] = 0x01;
    let mut out = [0u8; 16];
    xor_native::<16>(&a, &b, &mut out);
    assert_eq!(
        out,
        [0x81, 2, 3, 4, 5, 6, 7, 8, 9, 10, 11, 12, 13, 14, 15, 0x11]
    );
}

#[test]
fn split_path_matches_byte_path_at_the_boundary() {
    let mut a = [0u8; 32];
    let mut b = [0u8; 32];
    a[15] = 0xF0;
    b[15] = 0x0F;
    a[16] = 0xAA;
    b[16] = 0x55;
    a[0] = 0x01;
    b[31] = 0x80;
    let mut paired = [0x77u8; 32];
    let mut scalar = [0x11u8; 32];
    xor_paired(&a, &b, &mut paired);
    xor_scalar::<32>(&a, &b, &mut scalar);
    assert_eq!(paired, scalar);
    assert_eq!(paired[0], 0x01);
    assert_eq!(paired[15], 0xFF);
    assert_eq!(paired[16], 0xFF);
    assert_eq!(paired[31], 0x80);
    assert_eq!(paired[14], 0);
    assert_eq!(paired[17], 0);
}

#[test]
fn split_path_keeps_the_halves_in_order() {
    let mut a = [0u8; 32];
    for i in 0..32 {
        a[i] = i as u8;
    }
    let b = [0u8; 32];
    let mut out = [0xFFu8; 32];
    xor_paired(&a, &b, &mut out);
    assert_eq!(out, a);
    let arm = CpuFeatures { arch: Arch::Arm, sse2: false, avx2: false, avx512f: false };
    let mut through_cpu = [0xFFu8; 32];
    Vector256_Xor(&arm, &a, &b, &mut through_cpu);
    assert_eq!(through_cpu, a);
}

#[test]
fn split_path_matches_native_path() {
    let a = pattern::<32>(31, 5);
    let b = pattern::<32>(131, 11);
    let mut paired = [0u8; 32];
    let mut native = [0u8; 32];
    xor_paired(&a, &b, &mut paired);
    xor_native::<32>(&a, &b, &mut native);
    assert_eq!(paired, native);
}

#[test]
fn xor_512_ignores_narrow_feature_bits() {
    let a = pattern::<64>(8, 3);
    let b = pattern::<64>(9, 3);
    let expected = bytewise(&a, &b);
    for bits in 0..4u8 {
        let cpu = CpuFeatures {
            arch: Arch::X86,
            sse2: bits & 1 != 0,
            avx2: bits & 2 != 0,
            avx512f: false,
        };
        let mut out = [0u8; 64];
        Vector512_Xor(&cpu, &a, &b, &mut out);
        assert_eq!(out, expected);
    }
}

#[test]
fn xor_overwrites_every_byte() {
    let a = pattern::<32>(1, 3);
    let b = pattern::<32>(2, 3);
    let cpu = CpuFeatures { arch: Arch::Other, sse2: false, avx2: false, avx512f: false };
    let mut first = [0x00u8; 32];
    let mut second = [0xFFu8; 32];
    Vector256_Xor(&cpu, &a, &b, &mut first);
    Vector256_Xor(&cpu, &a, &b, &mut second);
    assert_eq!(first, second);
}

#[test]
fn xor_leaves_operands_alone() {
    let a = pattern::<16>(1, 3);
    let b = pattern::<16>(2, 3);
    let a_copy = a;
    let b_copy = b;
    let cpu = CpuFeatures { arch: Arch::X86, sse2: true, avx2: true, avx512f: true };
    let mut out = [0u8; 16];
    Vector128_Xor(&cpu, &a, &b, &mut out);
    assert_eq!(a, a_copy);
    assert_eq!(b, b_copy);
}

#[test]
fn created_vectors_combine() {
    let data: [u8; 20] = [
        1, 2, 3, 4, 5, 6, 7, 8, 9, 10, 11, 12, 13, 14, 15, 16, 17, 18, 19, 20,
    ];
    let key = [0xFFu8; 16];
    let mut block = [0u8; 16];
    Vector128_Create(&data, 16, &mut block);
    assert_eq!(block, [17, 18, 19, 20, 0, 0, 0, 0, 0, 0, 0, 0, 0, 0, 0, 0]);
    let cpu = CpuFeatures { arch: Arch::Arm, sse2: false, avx2: false, avx512f: false };
    let mut out = [0u8; 16];
    Vector128_Xor(&cpu, &block, &key, &mut out);
    assert_eq!(
        out,
        [
            0xEE, 0xED, 0xEC, 0xEB, 0xFF, 0xFF, 0xFF, 0xFF, 0xFF, 0xFF, 0xFF, 0xFF, 0xFF, 0xFF,
            0xFF, 0xFF
        ]
    );
}
