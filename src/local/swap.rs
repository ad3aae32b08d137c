//! A hook that keeps the target's displaced bytes in the hook itself.
//!
//! The hook and the five bytes at the target's entry exchange contents: while
//! installed the entry holds the jump to the detour and the hook holds the
//! original bytes; `toggle` swaps the two.
use vstd::prelude::*;

use crate::local::{flipped, HookState};
use crate::patch::{
    decode_jump, disp_of, displacement, encode_jump, fits_i32, jump_dest, jump_patch,
    lemma_jump_round_trip, lemma_offset_round_trip, offset_from, offset_to, patch_disp, resolve,
    resolve_offset, HookError, JMP_LEN, JMP_OPCODE,
};

verus! {

/// A swap hook.
///
/// While uninstalled its reference holds the detour's address. Once attached
/// it holds the target's address as an offset from the hook's own address, so
/// every operation takes `at`, the address at which the hook currently lives.
#[derive(Clone, Copy)]
pub struct Hook {
    reference: usize,
    scratch: [u8; 5],
    state: HookState,
}

/// The mathematical content of a swap hook.
pub ghost struct SwapView {
    pub state: HookState,
    pub reference: usize,
    pub scratch: Seq<u8>,
}

impl View for Hook {
    type V = SwapView;

    closed spec fn view(&self) -> SwapView {
        SwapView { state: self.state, reference: self.reference, scratch: self.scratch@ }
    }
}

/// The bytes an uninstalled hook keeps: a jump with no displacement.
pub open spec fn template() -> Seq<u8> {
    jump_patch(0)
}

impl SwapView {
    /// The hook's invariant.
    pub open spec fn wf(self) -> bool {
        &&& self.scratch.len() == JMP_LEN
        &&& self.state == HookState::Uninstalled ==> self.scratch == template()
    }

    /// The address the reference denotes for a hook living at `at`.
    pub open spec fn target_at(self, at: usize) -> usize {
        resolve(at, self.reference)
    }
}

/// A fresh hook for `detour`.
pub open spec fn fresh(detour: usize) -> SwapView {
    SwapView { state: HookState::Uninstalled, reference: detour, scratch: template() }
}

/// Whether a hook in state `v` can be installed on `target`.
pub open spec fn can_install(v: SwapView, target: usize) -> bool {
    fits_i32(disp_of(target as int, v.reference as int))
}

/// The hook living at `at`, and the target's entry, after installing `v` on
/// `target` whose entry held `entry`.
pub open spec fn installed(v: SwapView, at: usize, target: usize, entry: Seq<u8>) -> (SwapView, Seq<u8>) {
    (
        SwapView { state: HookState::Installed, reference: offset_to(at, target), scratch: entry },
        jump_patch(disp_of(target as int, v.reference as int) as i32),
    )
}

/// The hook and the target's entry after exchanging their bytes.
pub open spec fn toggled(v: SwapView, entry: Seq<u8>) -> (SwapView, Seq<u8>) {
    (SwapView { state: flipped(v.state), scratch: entry, ..v }, v.scratch)
}

/// The hook living at `at`, and the target's entry, after removing `v` while
/// the entry holds the jump `entry`: the detour is recovered from that jump.
pub open spec fn removed(v: SwapView, at: usize, entry: Seq<u8>) -> (SwapView, Seq<u8>) {
    (
        SwapView {
            state: HookState::Uninstalled,
            reference: jump_dest(v.target_at(at) as int, patch_disp(entry) as int) as usize,
            scratch: template(),
        },
        v.scratch,
    )
}

/// The hook and the target's entry after `n` toggles.
pub open spec fn toggled_n(v: SwapView, entry: Seq<u8>, n: nat) -> (SwapView, Seq<u8>)
    decreases n,
{
    if n == 0 {
        (v, entry)
    } else {
        let (v1, e1) = toggled_n(v, entry, (n - 1) as nat);
        toggled(v1, e1)
    }
}

/// Installing a hook and removing it again leaves the target's entry
/// bit-identical to what it was, and the hook as it was before.
pub proof fn lemma_hook_unhook_round_trip(v: SwapView, at: usize, target: usize, entry: Seq<u8>)
    requires
        v.wf(),
        v.state == HookState::Uninstalled,
        can_install(v, target),
    ensures
        ({
            let (h1, e1) = installed(v, at, target, entry);
            let (h2, e2) = removed(h1, at, e1);
            e2 == entry && h2 == v
        }),
{
    let d = disp_of(target as int, v.reference as int) as i32;
    lemma_jump_round_trip(d);
    lemma_offset_round_trip(at, target);
}

/// Toggling an attached hook twice restores both the hook and the target's
/// entry, so `n` toggles act as none when `n` is even and as one when odd.
pub proof fn lemma_toggle_parity(v: SwapView, entry: Seq<u8>, n: nat)
    requires
        v.state != HookState::Uninstalled,
    ensures
        toggled_n(v, entry, n) == (if n % 2 == 0 { (v, entry) } else { toggled(v, entry) }),
    decreases n,
{
    if n > 0 {
        lemma_toggle_parity(v, entry, (n - 1) as nat);
    }
}

/// After installing a hook, an even number of toggles leaves the jump to the
/// detour at the target's entry and an odd number leaves the original bytes.
pub proof fn lemma_toggle_parity_after_hook(v: SwapView, at: usize, target: usize, entry: Seq<u8>, n: nat)
    requires
        v.wf(),
        v.state == HookState::Uninstalled,
        can_install(v, target),
    ensures
        ({
            let (h1, e1) = installed(v, at, target, entry);
            let (h, e) = toggled_n(h1, e1, n);
            &&& n % 2 == 0 ==> h.state == HookState::Installed && e == jump_patch(
                disp_of(target as int, v.reference as int) as i32,
            )
            &&& n % 2 == 1 ==> h.state == HookState::Bypassed && e == entry
            &&& h.target_at(at) == target
        }),
{
    let (h1, e1) = installed(v, at, target, entry);
    lemma_toggle_parity(h1, e1, n);
    lemma_offset_round_trip(at, target);
}

/// Two hooks installed one after the other on the same target and removed in
/// the reverse order restore the target's entry and both hooks. While both are
/// installed they denote the same target, and the second holds the first's
/// jump.
pub proof fn lemma_chaining(
    va: SwapView,
    at_a: usize,
    vb: SwapView,
    at_b: usize,
    target: usize,
    entry: Seq<u8>,
)
    requires
        va.wf(),
        vb.wf(),
        va.state == HookState::Uninstalled,
        vb.state == HookState::Uninstalled,
        can_install(va, target),
        can_install(vb, target),
    ensures
        ({
            let (a1, e1) = installed(va, at_a, target, entry);
            let (b1, e2) = installed(vb, at_b, target, e1);
            let (b2, e3) = removed(b1, at_b, e2);
            let (a2, e4) = removed(a1, at_a, e3);
            &&& b1.target_at(at_b) == a1.target_at(at_a)
            &&& b1.scratch == e1
            &&& e3 == e1
            &&& e4 == entry
            &&& b2 == vb
            &&& a2 == va
        }),
{
    lemma_hook_unhook_round_trip(vb, at_b, target, installed(va, at_a, target, entry).1);
    lemma_hook_unhook_round_trip(va, at_a, target, entry);
    lemma_offset_round_trip(at_a, target);
    lemma_offset_round_trip(at_b, target);
}

impl Hook {
    /// An uninstalled hook that will redirect to `detour`.
    pub fn new(detour: usize) -> (r: Hook)
        ensures
            r@ == fresh(detour),
            r@.wf(),
    {
        let r = Hook { reference: detour, scratch: encode_jump(0), state: HookState::Uninstalled };
        r
    }

    /// The hook's lifecycle state.
    pub fn state(&self) -> (r: HookState)
        ensures
            r == self@.state,
    {
        self.state
    }

    /// The bytes the hook holds: the target's original entry while installed,
    /// the jump to the detour while bypassed.
    pub fn scratch(&self) -> (r: [u8; 5])
        ensures
            r@ == self@.scratch,
    {
        self.scratch
    }

    /// The detour of an uninstalled hook.
    pub fn detour(&self) -> (r: usize)
        requires
            self@.state == HookState::Uninstalled,
        ensures
            r == self@.reference,
    {
        self.reference
    }

    /// Replaces the detour of an uninstalled hook.
    pub fn set_detour(&mut self, detour: usize)
        requires
            old(self)@.wf(),
            old(self)@.state == HookState::Uninstalled,
        ensures
            final(self)@ == (SwapView { reference: detour, ..old(self)@ }),
            final(self)@.wf(),
    {
        self.reference = detour;
    }

    /// Installs the hook, living at `at`, on `target`, whose first five bytes
    /// are `entry`: the entry receives the jump to the detour and the hook keeps
    /// the bytes it held. Fails with `HookError::Range`, writing nothing, when
    /// the detour is out of reach of a 32-bit displacement.
    pub fn hook(&mut self, at: usize, target: usize, entry: &mut [u8; 5]) -> (r: Result<(), HookError>)
        requires
            old(self)@.wf(),
            old(self)@.state == HookState::Uninstalled,
        ensures
            final(self)@.wf(),
            r is Ok <==> can_install(old(self)@, target),
            r is Ok ==> (final(self)@, final(entry)@) == installed(old(self)@, at, target, old(entry)@),
            r is Err ==> r == Err::<(), HookError>(HookError::Range) && final(self)@ == old(self)@
                && final(entry)@ == old(entry)@,
    {
        let disp = match displacement(target, self.reference) {
            Ok(d) => d,
            Err(e) => return Err(e),
        };
        self.scratch = *entry;
        *entry = encode_jump(disp);
        self.reference = offset_from(at, target);
        self.state = HookState::Installed;
        Ok(())
    }

    /// Removes the installed hook living at `at`, whose target's entry holds
    /// the jump `entry`: the entry gets its original bytes back and the hook
    /// refers to the detour again.
    pub fn unhook(&mut self, at: usize, entry: &mut [u8; 5])
        requires
            old(self)@.wf(),
            old(self)@.state == HookState::Installed,
            old(entry)@[0] == JMP_OPCODE,
        ensures
            final(self)@.wf(),
            (final(self)@, final(entry)@) == removed(old(self)@, at, old(entry)@),
    {
        let disp = decode_jump(entry);
        let target = resolve_offset(at, self.reference);
        let detour: i128 = target as i128 + JMP_LEN as i128 + disp as i128;
        *entry = self.scratch;
        self.scratch = encode_jump(0);
        self.reference = detour as usize;
        self.state = HookState::Uninstalled;
    }

    /// Exchanges the target's entry with the bytes the hook holds, switching
    /// between installed and bypassed. Written to be inlined into a detour.
    #[inline(always)]
    pub fn toggle_inline(&mut self, entry: &mut [u8; 5])
        requires
            old(self)@.wf(),
            old(self)@.state != HookState::Uninstalled,
        ensures
            final(self)@.wf(),
            (final(self)@, final(entry)@) == toggled(old(self)@, old(entry)@),
    {
        let held = self.scratch;
        self.scratch = *entry;
        *entry = held;
        self.state = match self.state {
            HookState::Installed => HookState::Bypassed,
            _ => HookState::Installed,
        };
    }

    /// Exchanges the target's entry with the bytes the hook holds, switching
    /// between installed and bypassed.
    pub fn toggle(&mut self, entry: &mut [u8; 5])
        requires
            old(self)@.wf(),
            old(self)@.state != HookState::Uninstalled,
        ensures
            final(self)@.wf(),
            (final(self)@, final(entry)@) == toggled(old(self)@, old(entry)@),
    {
        self.toggle_inline(entry)
    }

    /// The target of the attached hook living at `at`. Written to be inlined
    /// into a detour.
    #[inline(always)]
    pub fn target_inline(&self, at: usize) -> (r: usize)
        requires
            self@.state != HookState::Uninstalled,
        ensures
            r == self@.target_at(at),
    {
        resolve_offset(at, self.reference)
    }

    /// The target of the attached hook living at `at`.
    pub fn target(&self, at: usize) -> (r: usize)
        requires
            self@.state != HookState::Uninstalled,
        ensures
            r == self@.target_at(at),
    {
        self.target_inline(at)
    }
}

} // verus!
