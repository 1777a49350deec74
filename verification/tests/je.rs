//! CMP + JE: conditional control transfer driven by the Zero flag.

use ax::axecutor::Axecutor;
use ax::errors::AxErrorKind;
use ax::flags::FLAG_AF;
use ax::flags::FLAG_CF;
use ax::flags::FLAG_OF;
use ax::flags::FLAG_PF;
use ax::flags::FLAG_SF;
use ax::flags::FLAG_ZF;
use ax::operand::BranchKind;
use ax::operand::Code;
use ax::operand::Instruction;
use ax::operand::Operand;
use ax::registers::Gpr;
use ax::registers::RegView;
use ax::registers::Width;

const CODE_START: u64 = 0x40_1010;

fn fresh() -> Axecutor {
    Axecutor::new(CODE_START, 0x4000)
}

fn cmp_rax_3() -> Instruction {
    Instruction {
        code: Code::CmpRm64Imm8,
        length: 4,
        operands: vec![
            Operand::Register(RegView { gpr: Gpr::Rax, width: Width::W64, high: false }),
            Operand::Immediate { size: Width::W8, data: 3 },
        ],
    }
}

fn je_rel32_to(target: u64) -> Instruction {
    Instruction {
        code: Code::JeRel32_64,
        length: 6,
        operands: vec![Operand::NearBranch { kind: BranchKind::Near64, target }],
    }
}

/// Runs `cmp rax, 3; je target` the way a host's step loop would: the
/// instruction pointer is advanced past each instruction before it executes.
fn run_cmp_je(rax: u64, target: u64) -> Axecutor {
    let mut a = fresh();
    a.reg_write_64(Gpr::Rax, rax);
    let cmp = cmp_rax_3();
    let je = je_rel32_to(target);
    let mut rip = CODE_START;
    rip += cmp.length;
    a.write_rip(rip);
    a.step(&cmp).unwrap();
    rip += je.length;
    a.write_rip(rip);
    a.step(&je).unwrap();
    a
}

#[test]
fn cmp_rax_3_je_taken_when_equal() {
    // With RAX = 3 the comparison sets the Zero flag and the branch is taken:
    // the instruction pointer becomes the target, and RAX is untouched.
    let target = 0x40_46af;
    let a = run_cmp_je(3, target);
    assert_eq!(a.read_rip(), target);
    assert_eq!(a.reg_read_64(Gpr::Rax), 3);
}

#[test]
fn cmp_rax_4_je_falls_through_when_not_equal() {
    // With RAX = 4 the Zero flag is clear and the branch is not taken: the
    // instruction pointer keeps the address just past the branch, where the
    // fall-through code would run next.
    let target = 0x40_46af;
    let a = run_cmp_je(4, target);
    assert_eq!(a.read_rip(), CODE_START + 4 + 6);
    assert_eq!(a.reg_read_64(Gpr::Rax), 4);
}

#[test]
fn cmp_equal_sets_zero_and_parity_only() {
    let mut a = fresh();
    a.reg_write_64(Gpr::Rax, 3);
    a.step(&cmp_rax_3()).unwrap();
    let f = a.read_flags();
    assert_eq!(f & (FLAG_PF | FLAG_ZF), FLAG_PF | FLAG_ZF);
    assert_eq!(f & (FLAG_CF | FLAG_SF | FLAG_OF | FLAG_AF), 0);
    // The comparison never writes its destination back.
    assert_eq!(a.reg_read_64(Gpr::Rax), 3);
}

#[test]
fn cmp_not_equal_clears_flags() {
    let mut a = fresh();
    a.reg_write_64(Gpr::Rax, 4);
    a.step(&cmp_rax_3()).unwrap();
    let f = a.read_flags();
    assert_eq!(f & (FLAG_CF | FLAG_PF | FLAG_ZF | FLAG_SF | FLAG_OF | FLAG_AF), 0);
}

#[test]
fn cmp_smaller_sets_borrow_flags() {
    // 2 - 3 borrows: Carry and Adjust set, result 0xffff...ffff so Sign and
    // Parity set too.
    let mut a = fresh();
    a.reg_write_64(Gpr::Rax, 2);
    a.step(&cmp_rax_3()).unwrap();
    let f = a.read_flags();
    assert_eq!(f & (FLAG_CF | FLAG_AF | FLAG_SF | FLAG_PF), FLAG_CF | FLAG_AF | FLAG_SF | FLAG_PF);
    assert_eq!(f & (FLAG_ZF | FLAG_OF), 0);
}

#[test]
fn je_rel8_64_takes_64_bit_target() {
    let mut a = fresh();
    a.write_flags(FLAG_ZF);
    let i = Instruction {
        code: Code::JeRel8_64,
        length: 2,
        operands: vec![Operand::NearBranch { kind: BranchKind::Near64, target: 0x40_2000 }],
    };
    a.write_rip(CODE_START + 2);
    a.step(&i).unwrap();
    assert_eq!(a.read_rip(), 0x40_2000);
}

#[test]
fn je_rel32_64_sign_extends_32_bit_target() {
    let mut a = fresh();
    a.write_flags(FLAG_ZF);
    let i = Instruction {
        code: Code::JeRel32_64,
        length: 6,
        operands: vec![Operand::NearBranch { kind: BranchKind::Near32, target: 0x8000_0000 }],
    };
    a.step(&i).unwrap();
    assert_eq!(a.read_rip(), 0xffff_ffff_8000_0000);
}

#[test]
fn je_not_taken_ignores_operands() {
    // With the Zero flag clear the handler never inspects the operand.
    let mut a = fresh();
    a.write_rip(0x1234);
    let i = Instruction { code: Code::JeRel8_64, length: 2, operands: vec![] };
    a.step(&i).unwrap();
    assert_eq!(a.read_rip(), 0x1234);
}

#[test]
fn je_taken_without_branch_operand_is_invalid() {
    let mut a = fresh();
    a.write_flags(FLAG_ZF);
    a.write_rip(0x1234);
    let i = Instruction { code: Code::JeRel8_64, length: 2, operands: vec![] };
    assert_eq!(a.step(&i).unwrap_err().kind, AxErrorKind::InvalidOperand);
    assert_eq!(a.read_rip(), 0x1234);
}

#[test]
fn je_unimplemented_forms_fail_distinctly() {
    let mut a = fresh();
    a.write_flags(FLAG_ZF);
    a.write_rip(0x1234);
    for code in [
        Code::JeRel8_16,
        Code::JeRel8_32,
        Code::JecxzRel8_16,
        Code::JecxzRel8_32,
        Code::JecxzRel8_64,
        Code::JeRel16,
        Code::JeRel32_32,
    ] {
        let i = Instruction {
            code,
            length: 2,
            operands: vec![Operand::NearBranch { kind: BranchKind::Near16, target: 0x2000 }],
        };
        assert_eq!(a.step(&i).unwrap_err().kind, AxErrorKind::Unimplemented);
    }
    assert_eq!(a.read_rip(), 0x1234);
}

#[test]
fn step_dispatch_reports_unimplemented() {
    let mut a = fresh();
    let i = Instruction {
        code: Code::XorRm64Imm8,
        length: 4,
        operands: vec![
            Operand::Register(RegView { gpr: Gpr::Rax, width: Width::W64, high: false }),
            Operand::Immediate { size: Width::W8, data: 1 },
        ],
    };
    // An encoding form whose semantics are not implemented is reported as
    // such even through the top-level step dispatch.
    assert_eq!(a.step(&i).unwrap_err().kind, AxErrorKind::Unimplemented);
}
