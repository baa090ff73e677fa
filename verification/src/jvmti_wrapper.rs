//! Decisions of the JVMTI wrapper that need no JVM.

use vstd::prelude::*;

verus! {

/// Whether the address `ptr` lies in the block of `len` bytes that starts at
/// `base`. A null address lies in no block, and a null or empty block holds no
/// address.
pub fn ptr_in_range(ptr: usize, base: usize, len: usize) -> (inside: bool)
    ensures
        inside == (ptr != 0 && base != 0 && len != 0 && base <= ptr < base + len),
{
    if ptr == 0 || base == 0 || len == 0 {
        return false;
    }
    ptr >= base && ptr - base < len
}

} // verus!
