use ez_hook::patch::{
    decode_jump, displacement, encode_jump, offset_from, resolve_offset, HookError, JMP_LEN,
    JMP_OPCODE,
};
use ez_hook::scan::{advance, prologue_len, Arch, MAX_PROLOGUE};

#[test]
fn encode_jump_bytes() {
    assert_eq!(encode_jump(0x0000_0ffb), [0xE9, 0xfb, 0x0f, 0x00, 0x00]);
    assert_eq!(encode_jump(-10), [0xE9, 0xf6, 0xff, 0xff, 0xff]);
    assert_eq!(encode_jump(0), [JMP_OPCODE, 0, 0, 0, 0]);
    assert_eq!(encode_jump(i32::MIN), [0xE9, 0x00, 0x00, 0x00, 0x80]);
}

#[test]
fn decode_jump_round_trip() {
    for d in [0, 1, -1, 5, -5, 0x1234_5678, -0x1234_5678, i32::MAX, i32::MIN] {
        assert_eq!(decode_jump(&encode_jump(d)), d);
    }
    assert_eq!(decode_jump(&[0xE9, 0x78, 0x56, 0x34, 0x12]), 0x1234_5678);
}

#[test]
fn displacement_is_measured_from_the_jump_end() {
    assert_eq!(displacement(0x1000, 0x2000), Ok(0x0ffb));
    assert_eq!(displacement(0x2000, 0x1000), Ok(-0x1005));
    assert_eq!(displacement(0x1000, 0x1005), Ok(0));
    assert_eq!(JMP_LEN, 5);
}

#[test]
fn displacement_range_boundary() {
    let from: usize = 0x1_0000_0000;
    // The largest forward displacement that fits.
    assert_eq!(displacement(from, from + 5 + 0x7fff_ffff), Ok(i32::MAX));
    assert_eq!(displacement(from, from + 5 + 0x8000_0000), Err(HookError::Range));
    // The largest backward displacement that fits.
    assert_eq!(displacement(from, from + 5 - 0x8000_0000), Ok(i32::MIN));
    assert_eq!(displacement(from, from + 4 - 0x8000_0000), Err(HookError::Range));
    assert_eq!(displacement(0, usize::MAX), Err(HookError::Range));
}

#[test]
fn position_independent_offsets() {
    let off = offset_from(0x5000, 0x3000);
    assert_eq!(resolve_offset(0x5000, off), 0x3000);
    // Moving the holder moves what it denotes by the same amount.
    assert_eq!(resolve_offset(0x9000, off), 0x7000);
    assert_eq!(resolve_offset(usize::MAX, offset_from(usize::MAX, 7)), 7);
}

#[test]
fn prologue_len_covers_whole_instructions() {
    // push rsi; xor esi, esi; push rdi; mov edi, imm32; test edx, edx; ...
    let code = b"\x56\x33\xF6\x57\xBF\xA0\x10\x40\x00\x85\xD2\x74\x10\x8B\xF2\x8B\xFA";
    assert_eq!(prologue_len(Arch::X64, code), Some(9));
    // push rbp; mov rbp, rsp; mov eax, edi; imul eax, edi; pop rbp; ret
    let square = [0x55, 0x48, 0x89, 0xe5, 0x89, 0xf8, 0x0f, 0xaf, 0xc7, 0x5d, 0xc3];
    assert_eq!(prologue_len(Arch::X64, &square), Some(6));
    // A single five-byte instruction.
    assert_eq!(prologue_len(Arch::X64, &[0xE9, 0, 0, 0, 0]), Some(5));
}

#[test]
fn prologue_len_fails_on_undecodable_code() {
    assert_eq!(prologue_len(Arch::X64, &[]), None);
    // Too short to hold five bytes of instructions.
    assert_eq!(prologue_len(Arch::X64, &[0x55, 0x5d, 0xc3]), None);
    // An instruction cut off by the end of the slice.
    assert_eq!(prologue_len(Arch::X64, &[0x55, 0xBF, 0xA0, 0x10]), None);
    // Nineteen bytes of one-byte instructions: five suffice.
    assert_eq!(prologue_len(Arch::X64, &[0x90; 40]), Some(5));
    assert_eq!(MAX_PROLOGUE, 19);
}

#[test]
fn advance_steps_over_one_instruction() {
    assert_eq!(advance(0, 1, 19), Some(1));
    assert_eq!(advance(4, 5, 19), Some(9));
    assert_eq!(advance(4, 0, 19), None);
    assert_eq!(advance(17, 2, 19), Some(19));
    assert_eq!(advance(17, 3, 19), None);
}

#[test]
fn prologue_len_follows_the_chosen_encoding() {
    // x86-64: REX.W movabs [imm64], rax, ten bytes.
    // x86: dec eax, then mov [imm32], eax, six bytes in all.
    let code = [0x48, 0xA3, 1, 2, 3, 4, 5, 6, 7, 8, 0x90, 0x90, 0x90];
    assert_eq!(prologue_len(Arch::X64, &code), Some(10));
    assert_eq!(prologue_len(Arch::X86, &code), Some(6));
    // An encoding both read alike.
    let code = b"\x56\x33\xF6\x57\xBF\xA0\x10\x40\x00\x85\xD2";
    assert_eq!(prologue_len(Arch::X86, code), Some(9));
}
