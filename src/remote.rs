//! Hook blobs: a detour's code and its hook state, copied as one contiguous
//! range of bytes into memory near a target.
//!
//! A blob runs from the detour's entry through the end of the hook structure
//! placed after the detour's code. After a verbatim copy only the hook's
//! reference to its detour needs rewriting; everything else in the blob is
//! position-independent.
use vstd::prelude::*;

use crate::raw::{Hook, RawView};

pub mod swap;
pub mod trampoline;

verus! {

/// The length of a blob that starts at `start` and ends with a structure of
/// `state_size` bytes at `end`.
pub(crate) fn blob_len(start: usize, end: usize, state_size: usize) -> (r: usize)
    requires
        start <= end,
        end - start + state_size <= usize::MAX,
    ensures
        r == end - start + state_size,
{
    end - start + state_size
}

/// Copies the blob `source`, read from `start` and ending with the structure
/// at `end`, verbatim into `dest`, and returns where that structure lies in
/// the copy.
pub(crate) fn copy_blob(start: usize, end: usize, source: &[u8], dest: &mut [u8]) -> (r: usize)
    requires
        start <= end,
        end - start <= source@.len(),
        old(dest)@.len() == source@.len(),
    ensures
        final(dest)@ == source@,
        r == end - start,
{
    let mut i: usize = 0;
    while i < source.len()
        invariant
            i <= source@.len(),
            dest@.len() == source@.len(),
            forall|m: int| 0 <= m < i ==> dest@[m] == source@[m],
        decreases source@.len() - i,
    {
        dest[i] = source[i];
        i = i + 1;
    }
    assert(dest@ =~= source@);
    end - start
}

/// The length of the blob from the detour at `start` through the end of the
/// hook at `end`.
pub fn len(start: usize, end: usize) -> (r: usize)
    requires
        start <= end,
        end - start + vstd::layout::size_of::<Hook>() <= usize::MAX,
    ensures
        r == end - start + vstd::layout::size_of::<Hook>(),
{
    blob_len(start, end, core::mem::size_of::<Hook>())
}

/// Copies the blob `source`, from the detour at `start` through the end of
/// `hook` at `end`, verbatim into `dest`, which lives at `dest_addr`. Returns
/// where the hook lies in the copy and the hook to store there: the same hook
/// with the copy's own detour.
pub fn copy_to(start: usize, end: usize, hook: &Hook, source: &[u8], dest: &mut [u8], dest_addr: usize) -> (r: (usize, Hook))
    requires
        !hook@.attached(),
        start <= end,
        source@.len() == end - start + vstd::layout::size_of::<Hook>(),
        old(dest)@.len() == source@.len(),
    ensures
        final(dest)@ == source@,
        r.0 == end - start,
        r.1@ == (RawView { detour: dest_addr, ..hook@ }),
{
    let at = copy_blob(start, end, source, dest);
    let mut remote = *hook;
    remote.init(dest_addr);
    (at, remote)
}

} // verus!
