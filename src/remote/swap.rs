//! Blobs that carry a swap hook.
use vstd::prelude::*;

use crate::local::swap::{Hook, SwapView};
use crate::local::HookState;

verus! {

/// The length of the blob from the detour at `start` through the end of the
/// hook at `end`.
pub fn len(end: usize, start: usize) -> (r: usize)
    requires
        start <= end,
        end - start + vstd::layout::size_of::<Hook>() <= usize::MAX,
    ensures
        r == end - start + vstd::layout::size_of::<Hook>(),
{
    crate::remote::blob_len(start, end, core::mem::size_of::<Hook>())
}

/// Copies the blob `source`, from the detour at `start` through the end of
/// `hook` at `end`, verbatim into `dest`, which lives at `dest_addr`. Returns
/// where the hook lies in the copy and the hook to store there: the same hook
/// with the copy's own detour, at `dest_addr`.
pub fn copy_to(end: usize, start: usize, hook: &Hook, source: &[u8], dest: &mut [u8], dest_addr: usize) -> (r: (usize, Hook))
    requires
        hook@.wf(),
        hook@.state == HookState::Uninstalled,
        start <= end,
        source@.len() == end - start + vstd::layout::size_of::<Hook>(),
        old(dest)@.len() == source@.len(),
    ensures
        final(dest)@ == source@,
        r.0 == end - start,
        r.1@ == (SwapView { reference: dest_addr, ..hook@ }),
        r.1@.wf(),
{
    let at = crate::remote::copy_blob(start, end, source, dest);
    let mut remote = *hook;
    remote.set_detour(dest_addr);
    (at, remote)
}

} // verus!
