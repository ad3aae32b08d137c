//! Blobs that carry a trampoline hook, with room for its trampoline after the
//! hook.
use vstd::prelude::*;

use crate::local::trampoline::{Hook, TrampolineView, TRAMPOLINE_LEN};
use crate::local::HookState;
use crate::patch::offset_to;

verus! {

/// The length of the blob from the detour at `start` through the end of the
/// hook at `end`, plus the trampoline that follows it.
pub fn len(end: usize, start: usize) -> (r: usize)
    requires
        start <= end,
        end - start + vstd::layout::size_of::<Hook>() + TRAMPOLINE_LEN <= usize::MAX,
    ensures
        r == end - start + vstd::layout::size_of::<Hook>() + TRAMPOLINE_LEN,
{
    crate::remote::blob_len(start, end, core::mem::size_of::<Hook>()) + TRAMPOLINE_LEN
}

/// Copies the blob `source`, from the detour at `start` through the end of
/// `hook` at `end`, verbatim into `dest`, which lives at `dest_addr` and has
/// room for the trampoline after the hook. Returns where the hook lies in the
/// copy and the hook to store there: the same hook with the copy's own detour
/// and the trampoline after the hook in `dest`, at the hook's new address.
pub fn copy_to(end: usize, start: usize, hook: &Hook, source: &[u8], dest: &mut [u8], dest_addr: usize) -> (r: (usize, Hook))
    requires
        hook@.state == HookState::Uninstalled,
        start <= end,
        source@.len() == end - start + vstd::layout::size_of::<Hook>(),
        old(dest)@.len() == source@.len() + TRAMPOLINE_LEN,
        dest_addr + old(dest)@.len() <= usize::MAX,
    ensures
        final(dest)@.take(source@.len() as int) == source@,
        final(dest)@.skip(source@.len() as int) == old(dest)@.skip(source@.len() as int),
        r.0 == end - start,
        r.1@ == (TrampolineView {
            reference: dest_addr,
            trampoline: offset_to((dest_addr + r.0) as usize, (dest_addr + source@.len()) as usize),
            ..hook@
        }),
        r.1@.trampoline_at((dest_addr + r.0) as usize) == dest_addr + source@.len(),
{
    let size = source.len();
    let ghost dest0 = dest@;
    let mut i: usize = 0;
    while i < size
        invariant
            size == source@.len(),
            i <= size,
            dest@.len() == dest0.len(),
            dest0.len() == size + TRAMPOLINE_LEN,
            forall|m: int| 0 <= m < i ==> dest@[m] == source@[m],
            forall|m: int| size <= m < dest0.len() ==> dest@[m] == dest0[m],
        decreases size - i,
    {
        dest[i] = source[i];
        i = i + 1;
    }
    assert(dest@.take(size as int) =~= source@);
    assert(dest@.skip(size as int) =~= dest0.skip(size as int));
    let at = end - start;
    let mut remote = *hook;
    remote.set_detour(dest_addr);
    remote.set_trampoline(dest_addr + at, dest_addr + size);
    (at, remote)
}

} // verus!
