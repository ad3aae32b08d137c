//! A hook without toggling: installing overwrites the target's entry for as
//! long as the hook stays attached, and the trampoline keeps the original
//! function callable. Removing it finds the target again through the
//! trampoline's jump back and restores the target's prologue from the
//! trampoline's copy.
use vstd::prelude::*;

use crate::local::trampoline::{diverted, install, install_outcome, relay};
use crate::patch::{
    decode_jump, disp_of, jump_dest, lemma_jump_round_trip, offset_from, offset_to, patch_disp,
    resolve, resolve_offset, HookError, JMP_LEN, JMP_OPCODE,
};
use crate::scan::{lemma_boundary_bounds, scan_window, Arch, MAX_PROLOGUE};

verus! {

/// A hook that is either detached or installed for good.
///
/// The detour is held as an absolute address and the trampoline as an offset
/// from the hook's own address, so every operation that needs the trampoline
/// takes `at`, the address at which the hook currently lives.
#[derive(Clone, Copy)]
pub struct Hook {
    detour: usize,
    trampoline: usize,
    prologue: usize,
}

/// The mathematical content of a hook without toggling.
pub ghost struct RawView {
    pub detour: usize,
    pub trampoline: usize,
    /// The length of the relocated prologue while attached; zero while detached.
    pub prologue: nat,
}

impl View for Hook {
    type V = RawView;

    closed spec fn view(&self) -> RawView {
        RawView { detour: self.detour, trampoline: self.trampoline, prologue: self.prologue as nat }
    }
}

impl RawView {
    /// The hook's invariant.
    pub open spec fn wf(self) -> bool {
        self.prologue == 0 || JMP_LEN <= self.prologue <= MAX_PROLOGUE
    }

    /// Whether the hook is installed on a target.
    pub open spec fn attached(self) -> bool {
        self.prologue != 0
    }

    /// The trampoline's address, for a hook living at `at`.
    pub open spec fn trampoline_at(self, at: usize) -> usize {
        resolve(at, self.trampoline)
    }
}

/// The target that the trampoline `tramp` at `tramp_addr`, holding an
/// `n`-byte prologue, jumps back into.
pub open spec fn relay_target(tramp_addr: usize, tramp: Seq<u8>, n: nat) -> int {
    jump_dest(tramp_addr + n, patch_disp(tramp.subrange(n as int, n + JMP_LEN)) as int) - n
}

/// Installing a hook and removing it again restores the target's code
/// bit-identically and leaves the hook detached as before, so it can be
/// installed again; while it is installed, the trampoline leads back to the
/// target.
pub proof fn lemma_rehook_round_trip(arch: Arch, v: RawView, at: usize, target: usize, code: Seq<u8>, tramp: Seq<u8>)
    requires
        v.wf(),
        !v.attached(),
        install_outcome(arch, v.detour, v.trampoline_at(at), target, code) is Ok,
        tramp.len() == 24,
    ensures
        ({
            let n = install_outcome(arch, v.detour, v.trampoline_at(at), target, code)->Ok_0;
            let t1 = relay(v.trampoline_at(at), target, code, n, tramp);
            let c1 = diverted(v.detour, target, code);
            let v1 = RawView { prologue: n, ..v };
            &&& v1.wf() && v1.attached()
            &&& relay_target(v1.trampoline_at(at), t1, n) == target
            &&& c1.len() >= n
            &&& t1.take(n as int) + c1.skip(n as int) == code
            &&& (RawView { prologue: 0, ..v1 }) == v
        }),
{
    let n = install_outcome(arch, v.detour, v.trampoline_at(at), target, code)->Ok_0;
    lemma_boundary_bounds(arch, scan_window(code), 0);
    let tramp_addr = v.trampoline_at(at);
    let t1 = relay(tramp_addr, target, code, n, tramp);
    let c1 = diverted(v.detour, target, code);
    let back = disp_of(tramp_addr as int, target as int) as i32;
    lemma_jump_round_trip(back);
    assert(t1.subrange(n as int, n + JMP_LEN) =~= crate::patch::jump_patch(back));
    assert(t1.take(n as int) + c1.skip(n as int) =~= code);
}

impl Hook {
    /// A detached hook with no detour and no trampoline yet.
    pub fn empty() -> (r: Hook)
        ensures
            r@ == (RawView { detour: 0, trampoline: 0, prologue: 0 }),
    {
        Hook { detour: 0, trampoline: 0, prologue: 0 }
    }

    /// A detached hook that will redirect to `detour`.
    pub fn new(detour: usize) -> (r: Hook)
        ensures
            r@ == (RawView { detour, trampoline: 0, prologue: 0 }),
    {
        Hook { detour, trampoline: 0, prologue: 0 }
    }

    /// Sets the detour of a detached hook.
    pub fn init(&mut self, detour: usize)
        requires
            !old(self)@.attached(),
        ensures
            final(self)@ == (RawView { detour, ..old(self)@ }),
    {
        self.detour = detour;
    }

    /// Gives the detached hook, living at `at`, the trampoline buffer at
    /// address `trampoline`.
    pub fn set_trampoline(&mut self, at: usize, trampoline: usize)
        requires
            !old(self)@.attached(),
        ensures
            final(self)@ == (RawView { trampoline: offset_to(at, trampoline), ..old(self)@ }),
            final(self)@.trampoline_at(at) == trampoline,
    {
        self.trampoline = offset_from(at, trampoline);
    }

    /// The hook's detour.
    pub fn detour(&self) -> (r: usize)
        ensures
            r == self@.detour,
    {
        self.detour
    }

    /// Whether the hook is installed on a target.
    pub fn is_attached(&self) -> (r: bool)
        ensures
            r == self@.attached(),
    {
        self.prologue != 0
    }

    /// The length of the relocated prologue while attached; zero while
    /// detached.
    pub fn prologue(&self) -> (r: usize)
        ensures
            r == self@.prologue,
    {
        self.prologue
    }

    /// Installs the detached hook, living at `at`, on `target`, whose code is
    /// `code`, building the trampoline in `tramp`, the buffer at the hook's
    /// trampoline address. Fails, writing nothing, with `HookError::Range`
    /// when the detour or the trampoline is out of reach of a 32-bit
    /// displacement, and with `HookError::Undecodable` when no
    /// whole-instruction prologue can be decoded in the encoding of `arch`.
    pub fn hook(&mut self, arch: Arch, at: usize, target: usize, code: &mut [u8], tramp: &mut [u8; 24]) -> (r: Result<(), HookError>)
        requires
            old(self)@.wf(),
            !old(self)@.attached(),
        ensures
            final(self)@.wf(),
            r is Ok <==> install_outcome(arch, old(self)@.detour, old(self)@.trampoline_at(at), target, old(code)@) is Ok,
            r matches Err(e) ==> install_outcome(arch, old(self)@.detour, old(self)@.trampoline_at(at), target, old(code)@)
                == Err::<nat, HookError>(e) && final(self)@ == old(self)@ && final(code)@ == old(code)@
                && final(tramp)@ == old(tramp)@,
            install_outcome(arch, old(self)@.detour, old(self)@.trampoline_at(at), target, old(code)@) matches Ok(n) ==> {
                &&& final(self)@ == (RawView { prologue: n, ..old(self)@ })
                &&& final(code)@ == diverted(old(self)@.detour, target, old(code)@)
                &&& final(tramp)@ == relay(old(self)@.trampoline_at(at), target, old(code)@, n, old(tramp)@)
            },
    {
        let tramp_addr = resolve_offset(at, self.trampoline);
        match install(arch, self.detour, tramp_addr, target, code, tramp) {
            Ok(n) => {
                self.prologue = n;
                Ok(())
            },
            Err(e) => Err(e),
        }
    }

    /// The target of the attached hook living at `at`, found through the jump
    /// back at the end of its trampoline `tramp`.
    pub fn target(&self, at: usize, tramp: &[u8; 24]) -> (r: usize)
        requires
            self@.wf(),
            self@.attached(),
            tramp@[self@.prologue as int] == JMP_OPCODE,
        ensures
            r == relay_target(self@.trampoline_at(at), tramp@, self@.prologue) as usize,
    {
        let n = self.prologue;
        let jump: [u8; 5] = [tramp[n], tramp[n + 1], tramp[n + 2], tramp[n + 3], tramp[n + 4]];
        assert(jump@ =~= tramp@.subrange(n as int, n + JMP_LEN));
        let back = decode_jump(&jump);
        let tramp_addr = resolve_offset(at, self.trampoline);
        let target: i128 = tramp_addr as i128 + JMP_LEN as i128 + back as i128;
        target as usize
    }

    /// Removes the attached hook from its target, whose code is `code`: the
    /// target's prologue is restored from the trampoline `tramp`.
    pub fn unhook(&mut self, code: &mut [u8], tramp: &[u8; 24])
        requires
            old(self)@.wf(),
            old(self)@.attached(),
            old(self)@.prologue <= old(code)@.len(),
        ensures
            final(self)@ == (RawView { prologue: 0, ..old(self)@ }),
            final(code)@ == tramp@.take(old(self)@.prologue as int) + old(code)@.skip(old(self)@.prologue as int),
    {
        let n = self.prologue;
        let ghost code0 = code@;
        let mut i: usize = 0;
        while i < n
            invariant
                n <= MAX_PROLOGUE,
                n <= code@.len(),
                i <= n,
                code@.len() == code0.len(),
                tramp@.len() == 24,
                forall|m: int| 0 <= m < i ==> code@[m] == tramp@[m],
                forall|m: int| i <= m < code@.len() ==> code@[m] == code0[m],
            decreases n - i,
        {
            code[i] = tramp[i];
            i = i + 1;
        }
        assert(code@ =~= tramp@.take(n as int) + code0.skip(n as int));
        self.prologue = 0;
    }

    /// The trampoline of the hook living at `at`: while attached, calling it
    /// runs the target's original code.
    pub fn trampoline(&self, at: usize) -> (r: usize)
        ensures
            r == self@.trampoline_at(at),
    {
        resolve_offset(at, self.trampoline)
    }
}

} // verus!
