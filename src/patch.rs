//! The relative-jump patch and position-independent references.
use vstd::prelude::*;

verus! {

/// Opcode of `jmp rel32`.
pub const JMP_OPCODE: u8 = 0xE9;

/// Length in bytes of a `jmp rel32` instruction.
pub const JMP_LEN: usize = 5;

/// Why a hook operation was refused.
#[derive(Debug, Clone, Copy, PartialEq, Eq, Structural)]
pub enum HookError {
    /// A required jump displacement does not fit a signed 32-bit integer.
    Range,
    /// No run of whole instructions of at least five bytes could be decoded
    /// at the start of the target.
    Undecodable,
}

/// The four bytes of `w`, least significant first (x86 byte order).
pub open spec fn word_bytes(w: u32) -> Seq<u8> {
    seq![(w & 0xff) as u8, ((w >> 8u32) & 0xff) as u8, ((w >> 16u32) & 0xff) as u8, ((w >> 24u32) & 0xff) as u8]
}

/// The word whose little-endian bytes are `b0 b1 b2 b3`.
pub open spec fn word_of(b0: u8, b1: u8, b2: u8, b3: u8) -> u32 {
    (b0 as u32) | ((b1 as u32) << 8u32) | ((b2 as u32) << 16u32) | ((b3 as u32) << 24u32)
}

/// The five bytes of `jmp rel32` with displacement `disp`.
pub open spec fn jump_patch(disp: i32) -> Seq<u8> {
    seq![JMP_OPCODE] + word_bytes(disp as u32)
}

/// Whether `b` is a `jmp rel32` instruction.
pub open spec fn is_jump(b: Seq<u8>) -> bool {
    b.len() == JMP_LEN && b[0] == JMP_OPCODE
}

/// The displacement stored in bytes one to four of `b`.
pub open spec fn patch_disp(b: Seq<u8>) -> i32
    recommends
        b.len() == JMP_LEN,
{
    word_of(b[1], b[2], b[3], b[4]) as i32
}

/// The displacement that a jump placed at `from` needs to reach `to`: the CPU
/// adds it to the address just past the five-byte instruction.
pub open spec fn disp_of(from: int, to: int) -> int {
    to - from - JMP_LEN
}

/// Where a jump placed at `from` with displacement `disp` lands.
pub open spec fn jump_dest(from: int, disp: int) -> int {
    from + JMP_LEN + disp
}

/// Whether `d` fits a signed 32-bit integer.
pub open spec fn fits_i32(d: int) -> bool {
    i32::MIN <= d <= i32::MAX
}

/// The address `offset` bytes past `base`, modulo the address space.
pub open spec fn resolve(base: usize, offset: usize) -> usize {
    vstd::wrapping::usize_specs::wrapping_add(base, offset)
}

/// The offset from `base` to `addr`, modulo the address space.
pub open spec fn offset_to(base: usize, addr: usize) -> usize {
    vstd::wrapping::usize_specs::wrapping_sub(addr, base)
}

/// The displacement for a jump from `from` to `to`, or `HookError::Range`
/// when it does not fit a signed 32-bit integer.
pub fn displacement(from: usize, to: usize) -> (r: Result<i32, HookError>)
    ensures
        r is Ok <==> fits_i32(disp_of(from as int, to as int)),
        r matches Ok(d) ==> d as int == disp_of(from as int, to as int),
        r matches Err(e) ==> e == HookError::Range,
{
    let d: i128 = to as i128 - from as i128 - JMP_LEN as i128;
    if d < i32::MIN as i128 || d > i32::MAX as i128 {
        Err(HookError::Range)
    } else {
        Ok(d as i32)
    }
}

/// Encodes `jmp rel32` with displacement `disp`.
pub fn encode_jump(disp: i32) -> (r: [u8; 5])
    ensures
        r@ == jump_patch(disp),
{
    let w = disp as u32;
    let r = [JMP_OPCODE, (w & 0xff) as u8, ((w >> 8u32) & 0xff) as u8, ((w >> 16u32) & 0xff) as u8, ((w >> 24u32) & 0xff) as u8];
    assert(r@ =~= jump_patch(disp));
    r
}

/// Reads the displacement of a five-byte jump.
pub fn decode_jump(b: &[u8; 5]) -> (r: i32)
    ensures
        r == patch_disp(b@),
{
    let w: u32 = (b[1] as u32) | ((b[2] as u32) << 8u32) | ((b[3] as u32) << 16u32) | ((b[4] as u32) << 24u32);
    w as i32
}

/// The address that a reference stored as `offset` denotes when the structure
/// holding it lives at `base`.
pub fn resolve_offset(base: usize, offset: usize) -> (r: usize)
    ensures
        r == resolve(base, offset),
{
    base.wrapping_add(offset)
}

/// The offset under which a structure at `base` refers to `addr`.
pub fn offset_from(base: usize, addr: usize) -> (r: usize)
    ensures
        r == offset_to(base, addr),
        resolve(base, r) == addr,
{
    addr.wrapping_sub(base)
}

/// Decoding an encoded jump gives back its displacement.
pub proof fn lemma_jump_round_trip(disp: i32)
    ensures
        jump_patch(disp).len() == JMP_LEN,
        is_jump(jump_patch(disp)),
        patch_disp(jump_patch(disp)) == disp,
{
    let w = disp as u32;
    let p = jump_patch(disp);
    assert(p[1] == (w & 0xff) as u8);
    assert(p[2] == ((w >> 8u32) & 0xff) as u8);
    assert(p[3] == ((w >> 16u32) & 0xff) as u8);
    assert(p[4] == ((w >> 24u32) & 0xff) as u8);
    assert(word_of((w & 0xff) as u8, ((w >> 8u32) & 0xff) as u8, ((w >> 16u32) & 0xff) as u8, ((w >> 24u32) & 0xff) as u8) == w) by (bit_vector);
    assert((disp as u32) as i32 == disp) by (bit_vector);
}

/// A detour 2^31 bytes or more away from its target is out of reach of a
/// jump placed at the target, except where it lies at most four bytes past
/// 2^31 above it: the jump's own five bytes bring those within reach.
pub proof fn lemma_out_of_reach(target: usize, detour: usize)
    requires
        detour - target >= 0x8000_0000 || target - detour >= 0x8000_0000,
        !(0x8000_0000 <= detour - target <= 0x8000_0004),
    ensures
        !fits_i32(disp_of(target as int, detour as int)),
{
}

/// A position-independent reference keeps denoting the same place relative to
/// its holder: moving the holder by `delta` moves what it denotes by `delta`.
pub proof fn lemma_relocation(base: usize, offset: usize, delta: usize)
    ensures
        resolve(resolve(base, delta), offset) == resolve(resolve(base, offset), delta),
{
}

/// Storing the offset to `addr` and resolving it from the same base gives
/// `addr` back.
pub proof fn lemma_offset_round_trip(base: usize, addr: usize)
    ensures
        resolve(base, offset_to(base, addr)) == addr,
{
}

} // verus!
