#![allow(non_snake_case)]

pub mod cpu;
pub mod create;
pub mod lane;
pub mod laws;
pub mod model;
pub mod xor;

pub use cpu::{Arch, CpuFeatures, XorPath};
pub use cpu::{
    Vector128_IsHardwareAccelerated, Vector256_IsHardwareAccelerated,
    Vector512_IsHardwareAccelerated,
};
pub use create::{Vector128_Create, Vector256_Create, Vector512_Create};
pub use xor::{Vector128_Xor, Vector256_Xor, Vector512_Xor};
