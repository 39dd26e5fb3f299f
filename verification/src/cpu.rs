use vstd::prelude::*;

verus! {

/// Architecture family of the executing processor.
#[derive(Clone, Copy, Debug, PartialEq, Eq, Structural)]
pub enum Arch {
    /// 32- or 64-bit x86: vector support is found by probing feature bits.
    X86,
    /// ARM with NEON: 128-bit registers, always present.
    Arm,
    /// Any other architecture: no vector support is assumed.
    Other,
}

/// What a probe of the executing processor found. The three feature bits
/// are read on x86 only; on other architectures they carry no meaning.
#[derive(Clone, Copy, Debug, PartialEq, Eq, Structural)]
pub struct CpuFeatures {
    pub arch: Arch,
    /// 128-bit integer vector instructions (x86).
    pub sse2: bool,
    /// 256-bit integer vector instructions (x86).
    pub avx2: bool,
    /// 512-bit vector instructions (x86).
    pub avx512f: bool,
}

/// The way an exclusive-or of one width is carried out.
#[derive(Clone, Copy, Debug, PartialEq, Eq, Structural)]
pub enum XorPath {
    /// One register as wide as the vector.
    NativeWide,
    /// Two registers of half the vector's width, one per half.
    PairedNarrow,
    /// One byte at a time.
    Scalar,
}

/// Path taken for 128-bit vectors: a native register where the processor
/// has 128-bit vector instructions, bytes otherwise.
pub open spec fn path_128(cpu: CpuFeatures) -> XorPath {
    match cpu.arch {
        Arch::X86 => if cpu.sse2 {
            XorPath::NativeWide
        } else {
            XorPath::Scalar
        },
        Arch::Arm => XorPath::NativeWide,
        Arch::Other => XorPath::Scalar,
    }
}

/// Path taken for 256-bit vectors: a native register on x86 with 256-bit
/// vector instructions, a pair of 128-bit registers on ARM, bytes otherwise.
pub open spec fn path_256(cpu: CpuFeatures) -> XorPath {
    match cpu.arch {
        Arch::X86 => if cpu.avx2 {
            XorPath::NativeWide
        } else {
            XorPath::Scalar
        },
        Arch::Arm => XorPath::PairedNarrow,
        Arch::Other => XorPath::Scalar,
    }
}

/// Path taken for 512-bit vectors: a native register on x86 with 512-bit
/// vector instructions, bytes everywhere else. Narrower registers are never
/// combined to stand in for a 512-bit one.
pub open spec fn path_512(cpu: CpuFeatures) -> XorPath {
    match cpu.arch {
        Arch::X86 => if cpu.avx512f {
            XorPath::NativeWide
        } else {
            XorPath::Scalar
        },
        Arch::Arm => XorPath::Scalar,
        Arch::Other => XorPath::Scalar,
    }
}

/// Whether 128-bit vectors have a hardware-backed path on `cpu`.
pub open spec fn accelerated_128(cpu: CpuFeatures) -> bool {
    match cpu.arch {
        Arch::X86 => cpu.sse2,
        Arch::Arm => true,
        Arch::Other => false,
    }
}

/// Whether 256-bit vectors have a hardware-backed path on `cpu`, be it a
/// native register or a pair of narrower ones.
pub open spec fn accelerated_256(cpu: CpuFeatures) -> bool {
    match cpu.arch {
        Arch::X86 => cpu.avx2,
        Arch::Arm => true,
        Arch::Other => false,
    }
}

/// Whether 512-bit vectors have a hardware-backed path on `cpu`.
pub open spec fn accelerated_512(cpu: CpuFeatures) -> bool {
    match cpu.arch {
        Arch::X86 => cpu.avx512f,
        Arch::Arm => false,
        Arch::Other => false,
    }
}

/// Reports whether 128-bit vectors are accelerated on `cpu`.
pub fn Vector128_IsHardwareAccelerated(cpu: &CpuFeatures) -> (accelerated: bool)
    ensures
        accelerated == accelerated_128(*cpu),
        accelerated == (path_128(*cpu) != XorPath::Scalar),
{
    match cpu.arch {
        Arch::X86 => cpu.sse2,
        Arch::Arm => true,
        Arch::Other => false,
    }
}

/// Reports whether 256-bit vectors are accelerated on `cpu`.
pub fn Vector256_IsHardwareAccelerated(cpu: &CpuFeatures) -> (accelerated: bool)
    ensures
        accelerated == accelerated_256(*cpu),
        accelerated == (path_256(*cpu) != XorPath::Scalar),
{
    match cpu.arch {
        Arch::X86 => cpu.avx2,
        Arch::Arm => true,
        Arch::Other => false,
    }
}

/// Reports whether 512-bit vectors are accelerated on `cpu`.
pub fn Vector512_IsHardwareAccelerated(cpu: &CpuFeatures) -> (accelerated: bool)
    ensures
        accelerated == accelerated_512(*cpu),
        accelerated == (path_512(*cpu) != XorPath::Scalar),
{
    match cpu.arch {
        Arch::X86 => cpu.avx512f,
        Arch::Arm => false,
        Arch::Other => false,
    }
}

/// Chooses the path for a 128-bit exclusive-or on `cpu`.
pub fn select_path_128(cpu: &CpuFeatures) -> (path: XorPath)
    ensures
        path == path_128(*cpu),
{
    if Vector128_IsHardwareAccelerated(cpu) {
        XorPath::NativeWide
    } else {
        XorPath::Scalar
    }
}

/// Chooses the path for a 256-bit exclusive-or on `cpu`.
pub fn select_path_256(cpu: &CpuFeatures) -> (path: XorPath)
    ensures
        path == path_256(*cpu),
{
    if !Vector256_IsHardwareAccelerated(cpu) {
        XorPath::Scalar
    } else {
        match cpu.arch {
            Arch::Arm => XorPath::PairedNarrow,
            _ => XorPath::NativeWide,
        }
    }
}

/// Chooses the path for a 512-bit exclusive-or on `cpu`.
pub fn select_path_512(cpu: &CpuFeatures) -> (path: XorPath)
    ensures
        path == path_512(*cpu),
{
    if Vector512_IsHardwareAccelerated(cpu) {
        XorPath::NativeWide
    } else {
        XorPath::Scalar
    }
}

} // verus!
