//! A hook whose trampoline keeps the original function callable.
//!
//! Installing copies the whole instructions that the five-byte jump displaces
//! into the trampoline, followed by a jump back into the rest of the target.
//! The trampoline's first five bytes and the target's entry then exchange
//! contents on every toggle.
use vstd::prelude::*;

use crate::local::{flipped, HookState};
use crate::patch::{
    decode_jump, disp_of, displacement, encode_jump, fits_i32, jump_dest, jump_patch,
    lemma_jump_round_trip, lemma_offset_round_trip, offset_from, offset_to, patch_disp, resolve,
    resolve_offset, HookError, JMP_LEN, JMP_OPCODE,
};
use crate::scan::{
    lemma_boundary_bounds, Arch, prologue_boundary, prologue_len, scan_window, MAX_PROLOGUE,
};

verus! {

/// Size in bytes of a trampoline: the longest prologue and a jump back.
pub const TRAMPOLINE_LEN: usize = 24;

/// A trampoline hook.
///
/// While uninstalled its reference holds the detour's address; once attached
/// it holds the target's address as an offset from the hook's own address.
/// The trampoline is always held as an offset from the hook's own address, so
/// every operation takes `at`, the address at which the hook currently lives.
#[derive(Clone, Copy)]
pub struct Hook {
    reference: usize,
    trampoline: usize,
    state: HookState,
}

/// The mathematical content of a trampoline hook.
pub ghost struct TrampolineView {
    pub state: HookState,
    pub reference: usize,
    pub trampoline: usize,
}

impl View for Hook {
    type V = TrampolineView;

    closed spec fn view(&self) -> TrampolineView {
        TrampolineView { state: self.state, reference: self.reference, trampoline: self.trampoline }
    }
}

impl TrampolineView {
    /// The target's address, for an attached hook living at `at`.
    pub open spec fn target_at(self, at: usize) -> usize {
        resolve(at, self.reference)
    }

    /// The trampoline's address, for a hook living at `at`.
    pub open spec fn trampoline_at(self, at: usize) -> usize {
        resolve(at, self.trampoline)
    }
}

/// A fresh hook for `detour`, with no trampoline yet.
pub open spec fn fresh(detour: usize) -> TrampolineView {
    TrampolineView { state: HookState::Uninstalled, reference: detour, trampoline: 0 }
}

/// The displacement of the jump from `target` to the detour of `v`.
pub open spec fn detour_disp(v: TrampolineView, target: usize) -> int {
    disp_of(target as int, v.reference as int)
}

/// The displacement of the jump back: placed after `n` copied bytes in the
/// trampoline, it reaches `target + n` for every `n`.
pub open spec fn return_disp(v: TrampolineView, at: usize, target: usize) -> int {
    disp_of(v.trampoline_at(at) as int, target as int)
}

/// What building a trampoline at `tramp_addr` for `target`, whose code is
/// `code`, and diverting the target to `detour` comes to: the length of the
/// relocated prologue, or the error.
pub open spec fn install_outcome(arch: Arch, detour: usize, tramp_addr: usize, target: usize, code: Seq<u8>) -> Result<nat, HookError> {
    if !fits_i32(disp_of(target as int, detour as int)) || !fits_i32(disp_of(tramp_addr as int, target as int)) {
        Err(HookError::Range)
    } else {
        match prologue_boundary(arch, code) {
            Some(n) => Ok(n),
            None => Err(HookError::Undecodable),
        }
    }
}

/// A trampoline at `tramp_addr` for `target`: the first `n` bytes of the
/// target's original code, the jump back to `target + n`, and what the buffer
/// held past those.
pub open spec fn relay(tramp_addr: usize, target: usize, code: Seq<u8>, n: nat, tramp: Seq<u8>) -> Seq<u8> {
    code.take(n as int) + jump_patch(disp_of(tramp_addr as int, target as int) as i32) + tramp.skip(n + JMP_LEN)
}

/// The target's code with the jump to `detour` in its entry.
pub open spec fn diverted(detour: usize, target: usize, code: Seq<u8>) -> Seq<u8> {
    jump_patch(disp_of(target as int, detour as int) as i32) + code.skip(JMP_LEN as int)
}

/// What installing `v`, living at `at`, on `target` whose code is `code` comes
/// to: the prologue length, or the error.
pub open spec fn hook_outcome(arch: Arch, v: TrampolineView, at: usize, target: usize, code: Seq<u8>) -> Result<nat, HookError> {
    install_outcome(arch, v.reference, v.trampoline_at(at), target, code)
}

/// The trampoline after installing `v`, living at `at`, on `target`.
pub open spec fn built(v: TrampolineView, at: usize, target: usize, code: Seq<u8>, n: nat, tramp: Seq<u8>) -> Seq<u8> {
    relay(v.trampoline_at(at), target, code, n, tramp)
}

/// The target's code after installing `v` on it.
pub open spec fn patched(v: TrampolineView, target: usize, code: Seq<u8>) -> Seq<u8> {
    diverted(v.reference, target, code)
}

/// The hook living at `at` once installed on `target`.
pub open spec fn attached(v: TrampolineView, at: usize, target: usize) -> TrampolineView {
    TrampolineView { state: HookState::Installed, reference: offset_to(at, target), ..v }
}

/// The hook, the target's entry and the trampoline after exchanging the entry
/// with the trampoline's first five bytes.
pub open spec fn toggled(v: TrampolineView, entry: Seq<u8>, tramp: Seq<u8>) -> (TrampolineView, Seq<u8>, Seq<u8>) {
    (TrampolineView { state: flipped(v.state), ..v }, tramp.take(JMP_LEN as int), entry + tramp.skip(
        JMP_LEN as int,
    ))
}

/// The hook living at `at`, the target's entry and the trampoline after
/// removing `v` while the entry holds the jump `entry`.
pub open spec fn removed(v: TrampolineView, at: usize, entry: Seq<u8>, tramp: Seq<u8>) -> (TrampolineView, Seq<u8>, Seq<u8>) {
    (
        TrampolineView {
            state: HookState::Uninstalled,
            reference: jump_dest(v.target_at(at) as int, patch_disp(entry) as int) as usize,
            ..v
        },
        tramp.take(JMP_LEN as int),
        entry + tramp.skip(JMP_LEN as int),
    )
}

/// The hook, the target's entry and the trampoline after `n` toggles.
pub open spec fn toggled_n(v: TrampolineView, entry: Seq<u8>, tramp: Seq<u8>, n: nat) -> (TrampolineView, Seq<u8>, Seq<u8>)
    decreases n,
{
    if n == 0 {
        (v, entry, tramp)
    } else {
        let (v1, e1, t1) = toggled_n(v, entry, tramp, (n - 1) as nat);
        toggled(v1, e1, t1)
    }
}

/// Toggling an attached hook twice restores the hook, the target's entry and
/// the trampoline, so `n` toggles act as none when `n` is even and as one when
/// odd.
pub proof fn lemma_toggle_parity(v: TrampolineView, entry: Seq<u8>, tramp: Seq<u8>, n: nat)
    requires
        v.state != HookState::Uninstalled,
        entry.len() == JMP_LEN,
        tramp.len() == TRAMPOLINE_LEN,
    ensures
        toggled_n(v, entry, tramp, n) == (if n % 2 == 0 {
            (v, entry, tramp)
        } else {
            toggled(v, entry, tramp)
        }),
    decreases n,
{
    let (v1, e1, t1) = toggled(v, entry, tramp);
    let (v2, e2, t2) = toggled(v1, e1, t1);
    assert(e2 =~= entry);
    assert(t2 =~= tramp);
    if n > 0 {
        lemma_toggle_parity(v, entry, tramp, (n - 1) as nat);
    }
}

/// Installing a trampoline hook and removing it again leaves the target's
/// code bit-identical to what it was, and the hook as it was before.
pub proof fn lemma_hook_unhook_round_trip(arch: Arch, v: TrampolineView, at: usize, target: usize, code: Seq<u8>, tramp: Seq<u8>)
    requires
        v.state == HookState::Uninstalled,
        hook_outcome(arch, v, at, target, code) is Ok,
        tramp.len() == TRAMPOLINE_LEN,
    ensures
        ({
            let n = hook_outcome(arch, v, at, target, code)->Ok_0;
            let c1 = patched(v, target, code);
            let t1 = built(v, at, target, code, n, tramp);
            let (h2, e2, t2) = removed(attached(v, at, target), at, c1.take(JMP_LEN as int), t1);
            &&& e2 + c1.skip(JMP_LEN as int) == code
            &&& h2 == v
            &&& t2.skip(JMP_LEN as int) == t1.skip(JMP_LEN as int)
        }),
{
    let n = hook_outcome(arch, v, at, target, code)->Ok_0;
    lemma_boundary_bounds(arch, scan_window(code), 0);
    lemma_jump_round_trip(detour_disp(v, target) as i32);
    lemma_offset_round_trip(at, target);
    let c1 = patched(v, target, code);
    let t1 = built(v, at, target, code, n, tramp);
    let (h2, e2, t2) = removed(attached(v, at, target), at, c1.take(JMP_LEN as int), t1);
    assert(e2 + c1.skip(JMP_LEN as int) =~= code);
    assert(t2.skip(JMP_LEN as int) =~= t1.skip(JMP_LEN as int));
}

/// Calling through the trampoline runs the target's original code: after
/// installing and any number of toggles the trampoline keeps the copied
/// prologue tail and the jump back to `target + n`, and after an even number
/// it also starts with the target's original first bytes, while the target's
/// entry jumps to the detour. After an odd number the target's entry holds
/// its original bytes again.
pub proof fn lemma_call_through(arch: Arch, v: TrampolineView, at: usize, target: usize, code: Seq<u8>, tramp: Seq<u8>, k: nat)
    requires
        v.state == HookState::Uninstalled,
        hook_outcome(arch, v, at, target, code) is Ok,
        tramp.len() == TRAMPOLINE_LEN,
    ensures
        ({
            let n = hook_outcome(arch, v, at, target, code)->Ok_0;
            let back = return_disp(v, at, target);
            let t1 = built(v, at, target, code, n, tramp);
            let (h, e, t) = toggled_n(attached(v, at, target), patched(v, target, code).take(JMP_LEN as int), t1, k);
            &&& JMP_LEN <= n <= MAX_PROLOGUE
            &&& n <= code.len()
            &&& t.skip(JMP_LEN as int) == t1.skip(JMP_LEN as int)
            &&& t.subrange(JMP_LEN as int, n as int) == code.subrange(JMP_LEN as int, n as int)
            &&& t.subrange(n as int, n + JMP_LEN) == jump_patch(back as i32)
            &&& jump_dest(h.trampoline_at(at) + n, back) == target + n
            &&& k % 2 == 0 ==> h.state == HookState::Installed && t.take(n as int) == code.take(n as int)
                && e == jump_patch(detour_disp(v, target) as i32)
            &&& k % 2 == 1 ==> h.state == HookState::Bypassed && e == code.take(JMP_LEN as int)
        }),
{
    let n = hook_outcome(arch, v, at, target, code)->Ok_0;
    lemma_boundary_bounds(arch, scan_window(code), 0);
    let back = return_disp(v, at, target);
    let h1 = attached(v, at, target);
    let e1 = patched(v, target, code).take(JMP_LEN as int);
    let t1 = built(v, at, target, code, n, tramp);
    lemma_jump_round_trip(back as i32);
    lemma_jump_round_trip(detour_disp(v, target) as i32);
    assert(e1 =~= jump_patch(detour_disp(v, target) as i32));
    lemma_toggle_parity(h1, e1, t1, k);
    let (h, e, t) = toggled_n(h1, e1, t1, k);
    let (hb, eb, tb) = toggled(h1, e1, t1);
    assert(tb.skip(JMP_LEN as int) =~= t1.skip(JMP_LEN as int));
    assert(t.skip(JMP_LEN as int) =~= t1.skip(JMP_LEN as int));
    assert(t1.subrange(JMP_LEN as int, n as int) =~= code.subrange(JMP_LEN as int, n as int));
    assert(t.subrange(JMP_LEN as int, n as int) =~= t1.skip(JMP_LEN as int).subrange(0, n - JMP_LEN));
    assert(t1.subrange(n as int, n + JMP_LEN) =~= jump_patch(back as i32));
    assert(t.subrange(n as int, n + JMP_LEN) =~= t1.skip(JMP_LEN as int).subrange(n - JMP_LEN, n as int));
    if k % 2 == 0 {
        assert(t1.take(n as int) =~= code.take(n as int));
    } else {
        assert(eb =~= code.take(JMP_LEN as int));
    }
}

impl Hook {
    /// An uninstalled hook that will redirect to `detour`.
    pub fn new(detour: usize) -> (r: Hook)
        ensures
            r@ == fresh(detour),
    {
        Hook { reference: detour, trampoline: 0, state: HookState::Uninstalled }
    }

    /// The hook's lifecycle state.
    pub fn state(&self) -> (r: HookState)
        ensures
            r == self@.state,
    {
        self.state
    }

    /// The detour of an uninstalled hook.
    pub fn detour(&self) -> (r: usize)
        requires
            self@.state == HookState::Uninstalled,
        ensures
            r == self@.reference,
    {
        self.reference
    }

    /// Replaces the detour of an uninstalled hook.
    pub fn set_detour(&mut self, detour: usize)
        requires
            old(self)@.state == HookState::Uninstalled,
        ensures
            final(self)@ == (TrampolineView { reference: detour, ..old(self)@ }),
    {
        self.reference = detour;
    }

    /// Gives the uninstalled hook, living at `at`, the trampoline buffer at
    /// address `trampoline`.
    pub fn set_trampoline(&mut self, at: usize, trampoline: usize)
        requires
            old(self)@.state == HookState::Uninstalled,
        ensures
            final(self)@ == (TrampolineView { trampoline: offset_to(at, trampoline), ..old(self)@ }),
            final(self)@.trampoline_at(at) == trampoline,
    {
        self.trampoline = offset_from(at, trampoline);
    }

    /// Installs the hook, living at `at`, on `target`, whose code is `code`,
    /// building the trampoline in `tramp`, the buffer at the hook's trampoline
    /// address. Fails, writing nothing, with `HookError::Range` when the
    /// detour or the trampoline is out of reach of a 32-bit displacement, and
    /// with `HookError::Undecodable` when no whole-instruction prologue of five
    /// to `MAX_PROLOGUE` bytes can be decoded in the encoding of `arch`.
    pub fn hook(&mut self, arch: Arch, at: usize, target: usize, code: &mut [u8], tramp: &mut [u8; 24]) -> (r: Result<(), HookError>)
        requires
            old(self)@.state == HookState::Uninstalled,
        ensures
            r is Ok <==> hook_outcome(arch, old(self)@, at, target, old(code)@) is Ok,
            r matches Err(e) ==> hook_outcome(arch, old(self)@, at, target, old(code)@) == Err::<nat, HookError>(e)
                && final(self)@ == old(self)@ && final(code)@ == old(code)@ && final(tramp)@ == old(tramp)@,
            hook_outcome(arch, old(self)@, at, target, old(code)@) matches Ok(n) ==> {
                &&& final(self)@ == attached(old(self)@, at, target)
                &&& final(code)@ == patched(old(self)@, target, old(code)@)
                &&& final(tramp)@ == built(old(self)@, at, target, old(code)@, n, old(tramp)@)
                &&& JMP_LEN <= n <= MAX_PROLOGUE
            },
    {
        let tramp_addr = resolve_offset(at, self.trampoline);
        match install(arch, self.reference, tramp_addr, target, code, tramp) {
            Ok(_) => {},
            Err(e) => return Err(e),
        }
        self.reference = offset_from(at, target);
        self.state = HookState::Installed;
        Ok(())
    }

    /// Removes the installed hook living at `at`, whose target's entry holds
    /// the jump `entry`: the entry and the trampoline's first five bytes
    /// exchange contents, and the hook refers to the detour again.
    pub fn unhook(&mut self, at: usize, entry: &mut [u8; 5], tramp: &mut [u8; 24])
        requires
            old(self)@.state == HookState::Installed,
            old(entry)@[0] == JMP_OPCODE,
        ensures
            (final(self)@, final(entry)@, final(tramp)@) == removed(old(self)@, at, old(entry)@, old(tramp)@),
    {
        let disp = decode_jump(entry);
        let target = resolve_offset(at, self.reference);
        let detour: i128 = target as i128 + JMP_LEN as i128 + disp as i128;
        exchange(entry, tramp);
        self.reference = detour as usize;
        self.state = HookState::Uninstalled;
    }

    /// Exchanges the target's entry with the trampoline's first five bytes,
    /// switching between installed and bypassed. Written to be inlined into a
    /// detour.
    #[inline(always)]
    pub fn toggle_inline(&mut self, entry: &mut [u8; 5], tramp: &mut [u8; 24])
        requires
            old(self)@.state != HookState::Uninstalled,
        ensures
            (final(self)@, final(entry)@, final(tramp)@) == toggled(old(self)@, old(entry)@, old(tramp)@),
    {
        exchange(entry, tramp);
        self.state = match self.state {
            HookState::Installed => HookState::Bypassed,
            _ => HookState::Installed,
        };
    }

    /// Exchanges the target's entry with the trampoline's first five bytes,
    /// switching between installed and bypassed.
    pub fn toggle(&mut self, entry: &mut [u8; 5], tramp: &mut [u8; 24])
        requires
            old(self)@.state != HookState::Uninstalled,
        ensures
            (final(self)@, final(entry)@, final(tramp)@) == toggled(old(self)@, old(entry)@, old(tramp)@),
    {
        self.toggle_inline(entry, tramp)
    }

    /// The target of the attached hook living at `at`.
    pub fn target(&self, at: usize) -> (r: usize)
        requires
            self@.state != HookState::Uninstalled,
        ensures
            r == self@.target_at(at),
    {
        resolve_offset(at, self.reference)
    }

    /// The trampoline of the hook living at `at`: while installed, calling it
    /// runs the target's original code. Written to be inlined into a detour.
    #[inline(always)]
    pub fn trampoline_inline(&self, at: usize) -> (r: usize)
        ensures
            r == self@.trampoline_at(at),
    {
        resolve_offset(at, self.trampoline)
    }

    /// The trampoline of the hook living at `at`: while installed, calling it
    /// runs the target's original code.
    pub fn trampoline(&self, at: usize) -> (r: usize)
        ensures
            r == self@.trampoline_at(at),
    {
        self.trampoline_inline(at)
    }
}

/// Builds the trampoline for `target`, whose code is `code` in the encoding
/// of `arch`, in `tramp`, the
/// buffer at `tramp_addr`, and writes the jump to `detour` into the target's
/// entry. Returns the length of the relocated prologue; on an error nothing
/// is written.
pub(crate) fn install(arch: Arch, detour: usize, tramp_addr: usize, target: usize, code: &mut [u8], tramp: &mut [u8; 24]) -> (r: Result<usize, HookError>)
    ensures
        r is Ok <==> install_outcome(arch, detour, tramp_addr, target, old(code)@) is Ok,
        r matches Ok(n) ==> {
            &&& install_outcome(arch, detour, tramp_addr, target, old(code)@) == Ok::<nat, HookError>(n as nat)
            &&& final(code)@ == diverted(detour, target, old(code)@)
            &&& final(tramp)@ == relay(tramp_addr, target, old(code)@, n as nat, old(tramp)@)
            &&& JMP_LEN <= n <= MAX_PROLOGUE
            &&& n <= old(code)@.len()
        },
        r matches Err(e) ==> install_outcome(arch, detour, tramp_addr, target, old(code)@) == Err::<nat, HookError>(e)
            && final(code)@ == old(code)@ && final(tramp)@ == old(tramp)@,
{
    let to_detour = match displacement(target, detour) {
        Ok(d) => d,
        Err(e) => return Err(e),
    };
    let back = match displacement(tramp_addr, target) {
        Ok(d) => d,
        Err(e) => return Err(e),
    };
    let n = match prologue_len(arch, code) {
        Some(n) => n,
        None => return Err(HookError::Undecodable),
    };
    let ghost code0 = code@;
    let ghost tramp0 = tramp@;
    let mut i: usize = 0;
    while i < n
        invariant
            n <= MAX_PROLOGUE,
            n <= code@.len(),
            i <= n,
            code@ == code0,
            tramp@.len() == TRAMPOLINE_LEN,
            forall|m: int| 0 <= m < i ==> tramp@[m] == code0[m],
            forall|m: int| i <= m < TRAMPOLINE_LEN ==> tramp@[m] == tramp0[m],
        decreases n - i,
    {
        tramp[i] = code[i];
        i = i + 1;
    }
    let jump_back = encode_jump(back);
    let mut j: usize = 0;
    while j < JMP_LEN
        invariant
            n <= MAX_PROLOGUE,
            j <= JMP_LEN,
            tramp@.len() == TRAMPOLINE_LEN,
            forall|m: int| 0 <= m < n ==> tramp@[m] == code0[m],
            forall|m: int| 0 <= m < j ==> tramp@[n + m] == jump_back@[m],
            forall|m: int| n + j <= m < TRAMPOLINE_LEN ==> tramp@[m] == tramp0[m],
        decreases JMP_LEN - j,
    {
        tramp[n + j] = jump_back[j];
        j = j + 1;
    }
    let to_detour_jump = encode_jump(to_detour);
    let mut k: usize = 0;
    while k < JMP_LEN
        invariant
            JMP_LEN <= n,
            n <= code@.len(),
            k <= JMP_LEN,
            code@.len() == code0.len(),
            forall|m: int| 0 <= m < k ==> code@[m] == to_detour_jump@[m],
            forall|m: int| k <= m < code@.len() ==> code@[m] == code0[m],
        decreases JMP_LEN - k,
    {
        code[k] = to_detour_jump[k];
        k = k + 1;
    }
    assert(tramp@ =~= relay(tramp_addr, target, code0, n as nat, tramp0));
    assert(code@ =~= diverted(detour, target, code0));
    Ok(n)
}

/// Exchanges `entry` with the first five bytes of `tramp`.
fn exchange(entry: &mut [u8; 5], tramp: &mut [u8; 24])
    ensures
        final(entry)@ == old(tramp)@.take(JMP_LEN as int),
        final(tramp)@ == old(entry)@ + old(tramp)@.skip(JMP_LEN as int),
{
    let held: [u8; 5] = [tramp[0], tramp[1], tramp[2], tramp[3], tramp[4]];
    let mut i: usize = 0;
    while i < JMP_LEN
        invariant
            i <= JMP_LEN,
            tramp@.len() == TRAMPOLINE_LEN,
            forall|m: int| 0 <= m < i ==> tramp@[m] == old(entry)@[m],
            forall|m: int| i <= m < TRAMPOLINE_LEN ==> tramp@[m] == old(tramp)@[m],
            entry@ == old(entry)@,
        decreases JMP_LEN - i,
    {
        tramp[i] = entry[i];
        i = i + 1;
    }
    *entry = held;
    assert(entry@ =~= old(tramp)@.take(JMP_LEN as int));
    assert(tramp@ =~= old(entry)@ + old(tramp)@.skip(JMP_LEN as int));
}

} // verus!
