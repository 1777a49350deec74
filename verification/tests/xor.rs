//! XOR handler: register/memory/immediate forms, flags, RIP-relative operands.

use ax::axecutor::Axecutor;
use ax::errors::AxErrorKind;
use ax::flags::FLAG_AF;
use ax::flags::FLAG_CF;
use ax::flags::FLAG_OF;
use ax::flags::FLAG_PF;
use ax::flags::FLAG_SF;
use ax::flags::FLAG_ZF;
use ax::operand::Code;
use ax::operand::Instruction;
use ax::operand::MemBase;
use ax::operand::MemOperand;
use ax::operand::Operand;
use ax::registers::Gpr;
use ax::registers::RegView;
use ax::registers::Width;

fn fresh() -> Axecutor {
    Axecutor::new(0x40_1000, 0x1000)
}

fn reg(gpr: Gpr, width: Width) -> Operand {
    Operand::Register(RegView { gpr, width, high: false })
}

fn mem(base: MemBase, displacement: u64) -> Operand {
    Operand::Memory(MemOperand { base, index: None, scale: 1, displacement })
}

fn imm(size: Width, data: u64) -> Operand {
    Operand::Immediate { size, data }
}

fn assert_flags(a: &Axecutor, set: u64, clear: u64) {
    let f = a.read_flags();
    assert_eq!(f & set, set, "flags expected set: {:#x}, word {:#x}", set, f);
    assert_eq!(f & clear, 0, "flags expected clear: {:#x}, word {:#x}", clear, f);
}

#[test]
fn xor_al_al_zeroes_and_sets_zero_parity() {
    // XOR AL, AL with AL = 0xff: result 0, {ZF, PF} set, {SF, OF, CF} clear.
    let mut a = fresh();
    a.reg_write(RegView { gpr: Gpr::Rax, width: Width::W8, high: false }, 0xff);
    let i = Instruction {
        code: Code::XorRm8R8,
        length: 2,
        operands: vec![reg(Gpr::Rax, Width::W8), reg(Gpr::Rax, Width::W8)],
    };
    a.mnemonic_xor(&i).unwrap();
    assert_eq!(a.reg_read(RegView { gpr: Gpr::Rax, width: Width::W8, high: false }), 0);
    assert_flags(&a, FLAG_ZF | FLAG_PF, FLAG_SF | FLAG_OF | FLAG_CF);
}

#[test]
fn xor_same_value_zeroes() {
    // xor al, bl with both 0xf.
    let mut a = fresh();
    a.reg_write(RegView { gpr: Gpr::Rax, width: Width::W8, high: false }, 0xf);
    a.reg_write(RegView { gpr: Gpr::Rbx, width: Width::W8, high: false }, 0xf);
    let i = Instruction {
        code: Code::XorRm8R8,
        length: 2,
        operands: vec![reg(Gpr::Rax, Width::W8), reg(Gpr::Rbx, Width::W8)],
    };
    a.mnemonic_xor(&i).unwrap();
    assert_eq!(a.reg_read(RegView { gpr: Gpr::Rax, width: Width::W8, high: false }), 0);
    assert_eq!(a.reg_read(RegView { gpr: Gpr::Rbx, width: Width::W8, high: false }), 0xf);
    assert_flags(&a, FLAG_ZF | FLAG_PF, FLAG_SF | FLAG_OF | FLAG_CF);
}

#[test]
fn xor_different_value() {
    // xor al, cl: 0b1010 ^ 0b0101 == 0b1111.
    let mut a = fresh();
    a.reg_write(RegView { gpr: Gpr::Rax, width: Width::W8, high: false }, 0b1010);
    a.reg_write(RegView { gpr: Gpr::Rcx, width: Width::W8, high: false }, 0b0101);
    let i = Instruction {
        code: Code::XorRm8R8,
        length: 2,
        operands: vec![reg(Gpr::Rax, Width::W8), reg(Gpr::Rcx, Width::W8)],
    };
    a.mnemonic_xor(&i).unwrap();
    assert_eq!(a.reg_read(RegView { gpr: Gpr::Rax, width: Width::W8, high: false }), 0b1111);
    assert_eq!(a.reg_read(RegView { gpr: Gpr::Rcx, width: Width::W8, high: false }), 0b0101);
    assert_flags(&a, FLAG_PF, FLAG_SF | FLAG_OF | FLAG_CF | FLAG_ZF);
}

#[test]
fn xor_sign_flag() {
    // xor al, cl with AL = 0x80, CL = 0: sign bit survives.
    let mut a = fresh();
    a.reg_write(RegView { gpr: Gpr::Rax, width: Width::W8, high: false }, 0b1000_0000);
    let i = Instruction {
        code: Code::XorRm8R8,
        length: 2,
        operands: vec![reg(Gpr::Rax, Width::W8), reg(Gpr::Rcx, Width::W8)],
    };
    a.mnemonic_xor(&i).unwrap();
    assert_eq!(a.reg_read(RegView { gpr: Gpr::Rax, width: Width::W8, high: false }), 0b1000_0000);
    assert_flags(&a, FLAG_SF, FLAG_PF | FLAG_OF | FLAG_CF | FLAG_ZF);
}

#[test]
fn xor_ax_cx() {
    let mut a = fresh();
    a.reg_write(RegView { gpr: Gpr::Rax, width: Width::W16, high: false }, 0xffff);
    a.reg_write(RegView { gpr: Gpr::Rcx, width: Width::W16, high: false }, 0xf0f0);
    let i = Instruction {
        code: Code::XorRm16R16,
        length: 3,
        operands: vec![reg(Gpr::Rax, Width::W16), reg(Gpr::Rcx, Width::W16)],
    };
    a.mnemonic_xor(&i).unwrap();
    assert_eq!(a.reg_read(RegView { gpr: Gpr::Rax, width: Width::W16, high: false }), 0x0f0f);
    assert_eq!(a.reg_read(RegView { gpr: Gpr::Rcx, width: Width::W16, high: false }), 0xf0f0);
    assert_flags(&a, FLAG_PF, FLAG_SF | FLAG_OF | FLAG_CF | FLAG_ZF);
}

#[test]
fn xor_rax_r11() {
    let mut a = fresh();
    a.reg_write_64(Gpr::Rax, 0x333_1234_5678);
    a.reg_write_64(Gpr::R11, 0x333_8765_4321);
    let i = Instruction {
        code: Code::XorRm64R64,
        length: 3,
        operands: vec![reg(Gpr::Rax, Width::W64), reg(Gpr::R11, Width::W64)],
    };
    a.mnemonic_xor(&i).unwrap();
    assert_eq!(a.reg_read_64(Gpr::Rax), 0x333_1234_5678u64 ^ 0x333_8765_4321u64);
    assert_eq!(a.reg_read_64(Gpr::R11), 0x333_8765_4321);
    assert_flags(&a, FLAG_PF, FLAG_SF | FLAG_OF | FLAG_CF | FLAG_ZF);
}

#[test]
fn xor_memory_destination() {
    // xor [rsp+8], eax
    let mut a = fresh();
    a.reg_write(RegView { gpr: Gpr::Rax, width: Width::W32, high: false }, 0x1234_5678);
    a.reg_write_64(Gpr::Rsp, 0x1000);
    a.mem_init_zero(0x1000, 256).unwrap();
    a.mem_write_32(0x1008, 0x8765_4321).unwrap();
    let i = Instruction {
        code: Code::XorRm32R32,
        length: 4,
        operands: vec![mem(MemBase::Reg(Gpr::Rsp), 8), reg(Gpr::Rax, Width::W32)],
    };
    a.mnemonic_xor(&i).unwrap();
    assert_eq!(a.mem_read_32(0x1008).unwrap(), 0x1234_5678 ^ 0x8765_4321);
    assert_eq!(a.reg_read(RegView { gpr: Gpr::Rax, width: Width::W32, high: false }), 0x1234_5678);
    assert_eq!(a.reg_read_64(Gpr::Rsp), 0x1000);
    assert_flags(&a, FLAG_PF | FLAG_SF, FLAG_OF | FLAG_CF | FLAG_ZF);
}

#[test]
fn xor_memory_destination_negative_displacement() {
    // xor [rsp-8], r11: the displacement wraps around the address space.
    let mut a = fresh();
    a.reg_write_64(Gpr::R11, 0x333_1234_5678);
    a.reg_write_64(Gpr::Rsp, 0x1000);
    a.mem_init_zero(0x800, 0x1000).unwrap();
    a.mem_write_64(0xff8, 0x8765_4321).unwrap();
    let i = Instruction {
        code: Code::XorRm64R64,
        length: 5,
        operands: vec![
            mem(MemBase::Reg(Gpr::Rsp), (-8i64) as u64),
            reg(Gpr::R11, Width::W64),
        ],
    };
    a.mnemonic_xor(&i).unwrap();
    assert_eq!(a.mem_read_64(0xff8).unwrap(), 0x333_1234_5678u64 ^ 0x8765_4321u64);
    assert_eq!(a.reg_read_64(Gpr::R11), 0x333_1234_5678);
    assert_flags(&a, FLAG_PF, FLAG_SF | FLAG_OF | FLAG_CF | FLAG_ZF);
}

#[test]
fn xor_memory_source() {
    // xor al, [rsp]
    let mut a = fresh();
    a.reg_write(RegView { gpr: Gpr::Rax, width: Width::W8, high: false }, 0xf);
    a.mem_init_zero(0x1000, 256).unwrap();
    a.mem_write_8(0x1000, 0x10).unwrap();
    a.reg_write_64(Gpr::Rsp, 0x1000);
    let i = Instruction {
        code: Code::XorR8Rm8,
        length: 3,
        operands: vec![reg(Gpr::Rax, Width::W8), mem(MemBase::Reg(Gpr::Rsp), 0)],
    };
    a.mnemonic_xor(&i).unwrap();
    assert_eq!(a.reg_read(RegView { gpr: Gpr::Rax, width: Width::W8, high: false }), 0x10 ^ 0xf);
    assert_eq!(a.mem_read_8(0x1000).unwrap(), 0x10);
    assert_flags(&a, 0, FLAG_PF | FLAG_SF | FLAG_OF | FLAG_CF | FLAG_ZF);
}

#[test]
fn xor_word_register_with_memory_source() {
    // xor r11w, [rsp+0x20]
    let mut a = fresh();
    a.reg_write(RegView { gpr: Gpr::R11, width: Width::W16, high: false }, 0x10);
    a.mem_init_zero(0x1000, 256).unwrap();
    a.mem_write_16(0x1020, 0x20).unwrap();
    a.reg_write_64(Gpr::Rsp, 0x1000);
    let i = Instruction {
        code: Code::XorR16Rm16,
        length: 6,
        operands: vec![reg(Gpr::R11, Width::W16), mem(MemBase::Reg(Gpr::Rsp), 0x20)],
    };
    a.mnemonic_xor(&i).unwrap();
    assert_eq!(a.reg_read(RegView { gpr: Gpr::R11, width: Width::W16, high: false }), 0x20 ^ 0x10);
    assert_eq!(a.mem_read_16(0x1020).unwrap(), 0x20);
    assert_flags(&a, FLAG_PF, FLAG_SF | FLAG_OF | FLAG_CF | FLAG_ZF);
}

#[test]
fn xor_rip_relative_source() {
    // xor edx, [rip+0x35353], instruction 6 bytes long: the effective address
    // is relative to the address after the instruction.
    let mut a = fresh();
    a.reg_write(RegView { gpr: Gpr::Rdx, width: Width::W32, high: false }, 0x10);
    let start = 0x40_1000u64;
    a.mem_init_zero(start + 0x35353 + 6, 4).unwrap();
    a.mem_write_32(start + 0x35353 + 6, 0x1234_5678).unwrap();
    // The host advances the instruction pointer past the instruction first.
    a.write_rip(start + 6);
    let i = Instruction {
        code: Code::XorR32Rm32,
        length: 6,
        operands: vec![reg(Gpr::Rdx, Width::W32), mem(MemBase::Rip, 0x35353)],
    };
    a.mnemonic_xor(&i).unwrap();
    assert_eq!(
        a.reg_read(RegView { gpr: Gpr::Rdx, width: Width::W32, high: false }),
        0x1234_5678 ^ 0x10
    );
    let rip = a.read_rip();
    assert_eq!(rip, start + 6);
    assert_eq!(a.mem_read_32(rip + 0x35353).unwrap(), 0x1234_5678);
    assert_flags(&a, 0, FLAG_PF | FLAG_SF | FLAG_OF | FLAG_CF | FLAG_ZF);
}

#[test]
fn xor_rip_relative_source_64() {
    // xor rax, [rip+0x35353], instruction 7 bytes long.
    let mut a = fresh();
    a.reg_write_64(Gpr::Rax, 0x10);
    let start = 0x40_1000u64;
    a.mem_init_zero(start + 0x35353 + 7, 8).unwrap();
    a.mem_write_64(start + 0x35353 + 7, 0x1234_5678).unwrap();
    a.write_rip(start + 7);
    let i = Instruction {
        code: Code::XorR64Rm64,
        length: 7,
        operands: vec![reg(Gpr::Rax, Width::W64), mem(MemBase::Rip, 0x35353)],
    };
    a.mnemonic_xor(&i).unwrap();
    assert_eq!(a.reg_read_64(Gpr::Rax), 0x1234_5678 ^ 0x10);
    let rip = a.read_rip();
    assert_eq!(a.mem_read_64(rip + 0x35353).unwrap(), 0x1234_5678);
    assert_flags(&a, 0, FLAG_PF | FLAG_SF | FLAG_OF | FLAG_CF | FLAG_ZF);
}

#[test]
fn xor_al_imm8() {
    // xor al, 8 with AL = 0x0f.
    let mut a = fresh();
    a.reg_write(RegView { gpr: Gpr::Rax, width: Width::W8, high: false }, 0x0f);
    let i = Instruction {
        code: Code::XorAlImm8,
        length: 2,
        operands: vec![reg(Gpr::Rax, Width::W8), imm(Width::W8, 8)],
    };
    a.mnemonic_xor(&i).unwrap();
    assert_eq!(a.reg_read(RegView { gpr: Gpr::Rax, width: Width::W8, high: false }), 0x7);
    assert_flags(&a, 0, FLAG_PF | FLAG_SF | FLAG_OF | FLAG_CF | FLAG_ZF);
}

#[test]
fn xor_bl_imm8() {
    // xor bl, 15 with BL = 15.
    let mut a = fresh();
    a.reg_write(RegView { gpr: Gpr::Rbx, width: Width::W8, high: false }, 15);
    let i = Instruction {
        code: Code::XorRm8Imm8,
        length: 3,
        operands: vec![reg(Gpr::Rbx, Width::W8), imm(Width::W8, 15)],
    };
    a.mnemonic_xor(&i).unwrap();
    assert_eq!(a.reg_read(RegView { gpr: Gpr::Rbx, width: Width::W8, high: false }), 0);
    assert_flags(&a, FLAG_ZF | FLAG_PF, FLAG_SF | FLAG_OF | FLAG_CF);
}

#[test]
fn xor_ax_imm16() {
    // xor ax, 155 with AX = 0x1355 gives 5070.
    let mut a = fresh();
    a.reg_write(RegView { gpr: Gpr::Rax, width: Width::W16, high: false }, 0x1355);
    let i = Instruction {
        code: Code::XorAxImm16,
        length: 4,
        operands: vec![reg(Gpr::Rax, Width::W16), imm(Width::W16, 155)],
    };
    a.mnemonic_xor(&i).unwrap();
    assert_eq!(a.reg_read(RegView { gpr: Gpr::Rax, width: Width::W16, high: false }), 5070);
    assert_flags(&a, 0, FLAG_PF | FLAG_SF | FLAG_OF | FLAG_CF | FLAG_ZF);
}

#[test]
fn xor_r11w_imm16() {
    // xor r11w, 0x1358 with R11W = 0x1358.
    let mut a = fresh();
    a.reg_write(RegView { gpr: Gpr::R11, width: Width::W16, high: false }, 0x1358);
    let i = Instruction {
        code: Code::XorRm16Imm16,
        length: 6,
        operands: vec![reg(Gpr::R11, Width::W16), imm(Width::W16, 0x1358)],
    };
    a.mnemonic_xor(&i).unwrap();
    assert_eq!(a.reg_read(RegView { gpr: Gpr::R11, width: Width::W16, high: false }), 0);
    assert_flags(&a, FLAG_ZF | FLAG_PF, FLAG_SF | FLAG_OF | FLAG_CF);
}

#[test]
fn xor_edx_imm32() {
    let mut a = fresh();
    a.reg_write(RegView { gpr: Gpr::Rdx, width: Width::W32, high: false }, 0x1358);
    let i = Instruction {
        code: Code::XorRm32Imm32,
        length: 6,
        operands: vec![reg(Gpr::Rdx, Width::W32), imm(Width::W32, 0x1358)],
    };
    a.mnemonic_xor(&i).unwrap();
    assert_eq!(a.reg_read(RegView { gpr: Gpr::Rdx, width: Width::W32, high: false }), 0);
    assert_flags(&a, FLAG_ZF | FLAG_PF, FLAG_SF | FLAG_OF | FLAG_CF);
}

#[test]
fn xor_eax_imm32() {
    let mut a = fresh();
    a.reg_write(RegView { gpr: Gpr::Rax, width: Width::W32, high: false }, 0x1358);
    let i = Instruction {
        code: Code::XorEaxImm32,
        length: 5,
        operands: vec![reg(Gpr::Rax, Width::W32), imm(Width::W32, 0x1358)],
    };
    a.mnemonic_xor(&i).unwrap();
    assert_eq!(a.reg_read(RegView { gpr: Gpr::Rax, width: Width::W32, high: false }), 0);
    assert_flags(&a, FLAG_ZF | FLAG_PF, FLAG_SF | FLAG_OF | FLAG_CF);
}

#[test]
fn xor_rax_imm32() {
    // xor rax, 0x35183958 with RAX = 0x35183957 gives 15.
    let mut a = fresh();
    a.reg_write_64(Gpr::Rax, 0x3518_3957);
    let i = Instruction {
        code: Code::XorRaxImm32,
        length: 6,
        operands: vec![reg(Gpr::Rax, Width::W64), imm(Width::W32, 0x3518_3958)],
    };
    a.mnemonic_xor(&i).unwrap();
    assert_eq!(a.reg_read_64(Gpr::Rax), 15);
    assert_flags(&a, FLAG_PF, FLAG_SF | FLAG_OF | FLAG_CF | FLAG_ZF);
}

#[test]
fn xor_rax_imm32_sign_extends() {
    // A 32-bit immediate with its sign bit set is extended to 64 bits.
    let mut a = fresh();
    a.reg_write_64(Gpr::Rax, 0);
    let i = Instruction {
        code: Code::XorRaxImm32,
        length: 6,
        operands: vec![reg(Gpr::Rax, Width::W64), imm(Width::W32, 0x8000_0000)],
    };
    a.mnemonic_xor(&i).unwrap();
    assert_eq!(a.reg_read_64(Gpr::Rax), 0xffff_ffff_8000_0000);
    assert_flags(&a, FLAG_SF | FLAG_PF, FLAG_OF | FLAG_CF | FLAG_ZF);
}

#[test]
fn xor_self_inverse_round_trip() {
    // write(r, x); xor(r, y); xor(r, y) restores x, at every width.
    let x = 0x1122_3344_5566_7788u64;
    let y = 0xa5a5_5a5a_ffff_0001u64;
    for (code, width, mask) in [
        (Code::XorRm8R8, Width::W8, 0xffu64),
        (Code::XorRm16R16, Width::W16, 0xffffu64),
        (Code::XorRm32R32, Width::W32, 0xffff_ffffu64),
        (Code::XorRm64R64, Width::W64, u64::MAX),
    ] {
        let mut a = fresh();
        let dest = RegView { gpr: Gpr::Rbx, width, high: false };
        a.reg_write(dest, x);
        a.reg_write(RegView { gpr: Gpr::Rcx, width, high: false }, y);
        let i = Instruction {
            code,
            length: 2,
            operands: vec![reg(Gpr::Rbx, width), reg(Gpr::Rcx, width)],
        };
        a.mnemonic_xor(&i).unwrap();
        a.mnemonic_xor(&i).unwrap();
        assert_eq!(a.reg_read(dest), x & mask);
    }
}

#[test]
fn parity_looks_at_low_byte_only() {
    // 0x0100 has one bit set overall but an all-zero low byte: parity is even.
    let mut a = fresh();
    a.reg_write(RegView { gpr: Gpr::Rax, width: Width::W16, high: false }, 0x0100);
    let i = Instruction {
        code: Code::XorAxImm16,
        length: 4,
        operands: vec![reg(Gpr::Rax, Width::W16), imm(Width::W16, 0)],
    };
    a.mnemonic_xor(&i).unwrap();
    assert_eq!(a.reg_read(RegView { gpr: Gpr::Rax, width: Width::W16, high: false }), 0x0100);
    assert_flags(&a, FLAG_PF, FLAG_ZF | FLAG_SF | FLAG_OF | FLAG_CF);
}

#[test]
fn xor_leaves_adjust_flag_alone() {
    // Adjust is neither computed nor cleared by a logical operation.
    let mut a = fresh();
    a.write_flags(FLAG_AF);
    a.reg_write(RegView { gpr: Gpr::Rax, width: Width::W8, high: false }, 0x3);
    let i = Instruction {
        code: Code::XorRm8R8,
        length: 2,
        operands: vec![reg(Gpr::Rax, Width::W8), reg(Gpr::Rax, Width::W8)],
    };
    a.mnemonic_xor(&i).unwrap();
    assert_ne!(a.read_flags() & FLAG_AF, 0);
    assert_flags(&a, FLAG_ZF | FLAG_PF | FLAG_AF, FLAG_SF | FLAG_OF | FLAG_CF);
}

#[test]
fn xor_unimplemented_forms_fail_distinctly() {
    let mut a = fresh();
    a.reg_write_64(Gpr::Rax, 0x1234);
    for code in [
        Code::XorRm8Imm8_82,
        Code::XorRm16Imm8,
        Code::XorRm32Imm8,
        Code::XorRm64Imm8,
    ] {
        let i = Instruction {
            code,
            length: 4,
            operands: vec![reg(Gpr::Rax, Width::W64), imm(Width::W8, 1)],
        };
        assert_eq!(a.mnemonic_xor(&i).unwrap_err().kind, AxErrorKind::Unimplemented);
    }
    // The failure changed nothing.
    assert_eq!(a.reg_read_64(Gpr::Rax), 0x1234);
    assert_eq!(a.read_flags(), 0);
}

#[test]
fn xor_operand_kind_mismatch_is_invalid_operand() {
    let mut a = fresh();
    // An immediate of the wrong declared width.
    let i = Instruction {
        code: Code::XorRm16Imm16,
        length: 4,
        operands: vec![reg(Gpr::Rax, Width::W16), imm(Width::W8, 1)],
    };
    assert_eq!(a.mnemonic_xor(&i).unwrap_err().kind, AxErrorKind::InvalidOperand);
    // A register of the wrong width.
    let i = Instruction {
        code: Code::XorRm8R8,
        length: 2,
        operands: vec![reg(Gpr::Rax, Width::W16), reg(Gpr::Rcx, Width::W8)],
    };
    assert_eq!(a.mnemonic_xor(&i).unwrap_err().kind, AxErrorKind::InvalidOperand);
    // Too few operands.
    let i = Instruction { code: Code::XorRm8R8, length: 2, operands: vec![] };
    assert_eq!(a.mnemonic_xor(&i).unwrap_err().kind, AxErrorKind::InvalidOperand);
}

#[test]
fn xor_unmapped_memory_fails_and_leaves_flags() {
    let mut a = fresh();
    a.reg_write(RegView { gpr: Gpr::Rax, width: Width::W32, high: false }, 1);
    let i = Instruction {
        code: Code::XorRm32R32,
        length: 4,
        operands: vec![mem(MemBase::NoBase, 0x9000), reg(Gpr::Rax, Width::W32)],
    };
    assert_eq!(a.mnemonic_xor(&i).unwrap_err().kind, AxErrorKind::MemoryAccess);
    assert_eq!(a.read_flags(), 0);
}

#[test]
fn xor_high_byte_view() {
    // xor ah, al with AX = 0x3040: AH becomes 0x70, AL stays 0x40.
    let mut a = fresh();
    a.reg_write(RegView { gpr: Gpr::Rax, width: Width::W16, high: false }, 0x3040);
    let i = Instruction {
        code: Code::XorRm8R8,
        length: 2,
        operands: vec![
            Operand::Register(RegView { gpr: Gpr::Rax, width: Width::W8, high: true }),
            reg(Gpr::Rax, Width::W8),
        ],
    };
    a.mnemonic_xor(&i).unwrap();
    assert_eq!(a.reg_read(RegView { gpr: Gpr::Rax, width: Width::W16, high: false }), 0x7040);
}
