use vstd::prelude::*;
use crate::model::{usable_len, window};

verus! {

/// Fills `out` with the `N`-byte window of `input` at `offset`.
pub(crate) fn fill_window<const N: usize>(input: &[u8], offset: usize, out: &mut [u8; N])
    ensures
        final(out)@ == window(input@, offset as nat, N as nat),
{
    let mut data: [u8; N] = [0u8; N];
    let avail: usize = input.len().saturating_sub(offset);
    let len: usize = if avail < N { avail } else { N };
    let mut i: usize = 0;
    while i < len
        invariant
            i <= len,
            len <= N,
            len as nat == usable_len(input@.len(), offset as nat, N as nat),
            input@.len() == input.len(),
            forall|j: int| 0 <= j < i ==> data@[j] == input@[offset + j],
            forall|j: int| i <= j < N ==> data@[j] == 0u8,
        decreases len - i,
    {
        data[i] = input[offset + i];
        i = i + 1;
    }
    assert(data@ =~= window(input@, offset as nat, N as nat));
    *out = data;
}

/// Builds a 128-bit vector from `input` at `offset`, zero-filled where the
/// buffer ends early.
pub fn Vector128_Create(input: &[u8], offset: usize, out: &mut [u8; 16])
    ensures
        final(out)@ == window(input@, offset as nat, 16),
{
    fill_window::<16>(input, offset, out);
}

/// Builds a 256-bit vector from `input` at `offset`, zero-filled where the
/// buffer ends early.
pub fn Vector256_Create(input: &[u8], offset: usize, out: &mut [u8; 32])
    ensures
        final(out)@ == window(input@, offset as nat, 32),
{
    fill_window::<32>(input, offset, out);
}

/// Builds a 512-bit vector from `input` at `offset`, zero-filled where the
/// buffer ends early.
pub fn Vector512_Create(input: &[u8], offset: usize, out: &mut [u8; 64])
    ensures
        final(out)@ == window(input@, offset as nat, 64),
{
    fill_window::<64>(input, offset, out);
}

} // verus!
