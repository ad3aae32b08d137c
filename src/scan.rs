//! Finding an instruction boundary at the start of a function.
use vstd::prelude::*;

use crate::patch::JMP_LEN;

verus! {

/// The most bytes of a target's prologue that a trampoline can hold.
pub const MAX_PROLOGUE: usize = 19;

/// The instruction set whose encoding the scan decodes.
#[derive(Debug, Clone, Copy, PartialEq, Eq, Structural)]
pub enum Arch {
    /// 32-bit x86.
    X86,
    /// x86-64.
    X64,
}

/// The length that lde's 32-bit x86 length disassembler gives for the first
/// instruction of `code`; zero when it rejects `code`, which it does for an
/// incomplete instruction and, on a best-effort basis, for an invalid one.
pub uninterp spec fn x86_insn_len(code: Seq<u8>) -> u32;

/// The length that lde's x86-64 length disassembler gives for the first
/// instruction of `code`; zero when it rejects `code`, which it does for an
/// incomplete instruction and, on a best-effort basis, for an invalid one.
pub uninterp spec fn x64_insn_len(code: Seq<u8>) -> u32;

/// The length that the disassembler for `arch` gives for the first
/// instruction of `code`.
pub open spec fn insn_len_of(arch: Arch, code: Seq<u8>) -> u32 {
    match arch {
        Arch::X86 => x86_insn_len(code),
        Arch::X64 => x64_insn_len(code),
    }
}

/// Relies on `lde::X86::ld`: it returns the length of the first instruction in
/// `code`, zero when it rejects it, and never more than `code.len()` (it
/// bounds-checks its total against the slice).
#[verifier::external_body]
fn x86_len(code: &[u8]) -> (r: u32)
    ensures
        r == x86_insn_len(code@),
        r as int <= code@.len(),
{
    lde::X86.ld(code)
}

/// Relies on `lde::X64::ld`: it returns the length of the first instruction in
/// `code`, zero when it rejects it, and never more than `code.len()` (it
/// bounds-checks its total against the slice).
#[verifier::external_body]
fn x64_len(code: &[u8]) -> (r: u32)
    ensures
        r == x64_insn_len(code@),
        r as int <= code@.len(),
{
    lde::X64.ld(code)
}

/// The length of the first instruction of `code` in the encoding of `arch`.
fn insn_len(arch: Arch, code: &[u8]) -> (r: u32)
    ensures
        r == insn_len_of(arch, code@),
        r as int <= code@.len(),
{
    match arch {
        Arch::X86 => x86_len(code),
        Arch::X64 => x64_len(code),
    }
}

/// The bytes of `code` that the scan may look at.
pub open spec fn scan_window(code: Seq<u8>) -> Seq<u8> {
    if code.len() < MAX_PROLOGUE {
        code
    } else {
        code.take(MAX_PROLOGUE as int)
    }
}

/// Where the scan stands after an instruction of `insn` bytes that starts
/// `count` bytes into a window of `limit` bytes; `None` when the decoder
/// rejected it (`insn == 0`) or it runs past the window.
pub open spec fn step(count: nat, insn: nat, limit: nat) -> Option<nat> {
    if insn == 0 || count + insn > limit {
        None
    } else {
        Some(count + insn)
    }
}

/// Decoding whole instructions of `code` from offset `count` on, the first
/// offset of at least five bytes that ends an instruction; `None` when an
/// instruction cannot be decoded before that.
pub open spec fn boundary_from(arch: Arch, code: Seq<u8>, count: nat) -> Option<nat>
    decreases code.len() - count,
{
    if count >= JMP_LEN {
        Some(count)
    } else {
        match step(count, insn_len_of(arch, code.subrange(count as int, code.len() as int)) as nat, code.len()) {
            Some(next) => boundary_from(arch, code, next),
            None => None,
        }
    }
}

/// The smallest count of at least five bytes that covers whole instructions
/// at the start of `code`, looking at no more than `MAX_PROLOGUE` bytes.
pub open spec fn prologue_boundary(arch: Arch, code: Seq<u8>) -> Option<nat> {
    boundary_from(arch, scan_window(code), 0)
}

/// A boundary found from `count` is at least five and lies within `code`.
pub proof fn lemma_boundary_bounds(arch: Arch, code: Seq<u8>, count: nat)
    requires
        count <= code.len(),
    ensures
        boundary_from(arch, code, count) matches Some(n) ==> JMP_LEN <= n <= code.len(),
        code.len() <= MAX_PROLOGUE ==> scan_window(code) == code,
        scan_window(code).len() <= code.len(),
        scan_window(code).len() <= MAX_PROLOGUE,
        scan_window(code) == code.take(scan_window(code).len() as int),
    decreases code.len() - count,
{
    if count < JMP_LEN {
        let l = insn_len_of(arch, code.subrange(count as int, code.len() as int));
        if let Some(next) = step(count, l as nat, code.len()) {
            lemma_boundary_bounds(arch, code, next);
        }
    }
    assert(code.len() <= MAX_PROLOGUE ==> code.take(code.len() as int) =~= code);
}

/// Advances the scan past an instruction of `insn` bytes that starts `count`
/// bytes into a window of `limit` bytes.
pub fn advance(count: usize, insn: u32, limit: usize) -> (r: Option<usize>)
    requires
        count <= limit,
    ensures
        r matches Some(next) ==> step(count as nat, insn as nat, limit as nat) == Some(next as nat),
        r is None <==> step(count as nat, insn as nat, limit as nat) is None,
{
    if insn == 0 || insn as usize > limit - count {
        None
    } else {
        Some(count + insn as usize)
    }
}

/// Finds how many bytes at the start of `code` must be moved to make room for
/// a five-byte jump without splitting an instruction.
pub fn prologue_len(arch: Arch, code: &[u8]) -> (r: Option<usize>)
    ensures
        r is Some <==> prologue_boundary(arch, code@) is Some,
        r matches Some(n) ==> prologue_boundary(arch, code@) == Some(n as nat) && JMP_LEN <= n
            <= MAX_PROLOGUE && n <= code@.len(),
{
    let limit: usize = if code.len() < MAX_PROLOGUE {
        code.len()
    } else {
        MAX_PROLOGUE
    };
    let window = &code[0..limit];
    assert(window@ == scan_window(code@));
    let mut count: usize = 0;
    while count < JMP_LEN
        invariant
            window@ == scan_window(code@),
            window@.len() == limit,
            limit <= MAX_PROLOGUE,
            limit <= code@.len(),
            count <= limit,
            boundary_from(arch, window@, count as nat) == prologue_boundary(arch, code@),
        decreases limit - count,
    {
        let insn = insn_len(arch, &window[count..limit]);
        match advance(count, insn, limit) {
            Some(next) => count = next,
            None => return None,
        }
    }
    Some(count)
}

} // verus!
