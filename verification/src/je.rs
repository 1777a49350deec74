//! The JE (jump-if-equal) instruction handler.
//!
//! A conditional control transfer: when the Zero flag is set, the
//! instruction-pointer register is overwritten with the branch target,
//! extended from the target's declared width by the architecture's rule for
//! that form; when the Zero flag is clear, nothing changes and the
//! instruction pointer keeps the value the host's step loop gave it, the
//! address of the next instruction.

use vstd::prelude::*;

use crate::axecutor::AxV;
use crate::axecutor::Axecutor;
use crate::calculate::lemma_alu_bounds;
use crate::calculate::spec_alu_flags;
use crate::calculate::spec_alu_result;
use crate::calculate::spec_sext;
use crate::calculate::step_matches;
use crate::calculate::AluOp;
use crate::calculate::StepR;
use crate::cmp::lemma_cmp_zero_iff_equal;
use crate::cmp::spec_mnemonic_cmp;
use crate::errors::AxError;
use crate::errors::AxErrorKind;
use crate::flags::spec_flags_after;
use crate::flags::spec_pf;
use crate::flags::spec_sf;
use crate::flags::spec_zf;
use crate::flags::spec_zsp;
use crate::flags::FLAG_AF;
use crate::flags::FLAG_CF;
use crate::flags::FLAG_OF;
use crate::flags::FLAG_PF;
use crate::flags::FLAG_SF;
use crate::flags::FLAG_ZF;
use crate::operand::BranchKind;
use crate::operand::Code;
use crate::operand::Instruction;
use crate::operand::Mnemonic;
use crate::operand::Operand;
use crate::registers::Gpr;
use crate::registers::RegView;
use crate::registers::Width;

verus! {

/// The spec-level outcome of one JE instruction.
///
/// The branch is taken exactly when the Zero flag is set. A taken 64-bit
/// `rel8` form requires a 64-bit near-branch operand; a taken 64-bit `rel32`
/// form accepts a 32-bit target, sign-extended, or a 64-bit target. Any other
/// operand kind under a taken branch is a decoder/handler mismatch. The other
/// forms are not implemented and fail distinctly.
pub open spec fn spec_mnemonic_je(pre: AxV, i: Instruction) -> StepR {
    match i.code {
        Code::JeRel8_64 => if pre.rflags & FLAG_ZF == 0 {
            StepR::Next(pre)
        } else if i.operands@.len() < 1 {
            StepR::Fail(AxErrorKind::InvalidOperand)
        } else {
            match i.operands@[0] {
                Operand::NearBranch { kind: BranchKind::Near64, target } => StepR::Next(
                    pre.with_regs(pre.regs.write_rip(target)),
                ),
                _ => StepR::Fail(AxErrorKind::InvalidOperand),
            }
        },
        Code::JeRel32_64 => if pre.rflags & FLAG_ZF == 0 {
            StepR::Next(pre)
        } else if i.operands@.len() < 1 {
            StepR::Fail(AxErrorKind::InvalidOperand)
        } else {
            match i.operands@[0] {
                Operand::NearBranch { kind: BranchKind::Near32, target } => StepR::Next(
                    pre.with_regs(pre.regs.write_rip(spec_sext(Width::W32, Width::W64, target))),
                ),
                Operand::NearBranch { kind: BranchKind::Near64, target } => StepR::Next(
                    pre.with_regs(pre.regs.write_rip(target)),
                ),
                _ => StepR::Fail(AxErrorKind::InvalidOperand),
            }
        },
        _ => StepR::Fail(AxErrorKind::Unimplemented),
    }
}

impl Axecutor {
    /// Executes one JE instruction: dispatches on the precise encoding form.
    /// The instruction pointer becomes the branch target exactly when the
    /// Zero flag is set; otherwise the state is unchanged. Encoding forms
    /// whose semantics are not implemented fail distinctly, changing nothing.
    pub fn mnemonic_je(&mut self, i: &Instruction) -> (r: Result<(), AxError>)
        requires
            old(self)@.wf(),
            i.code.mnemonic() == Mnemonic::Je,
        ensures
            final(self)@.wf(),
            step_matches(old(self)@, final(self)@, r, spec_mnemonic_je(old(self)@, *i)),
    {
        match i.code {
            Code::JeRel8_64 => self.instr_je_rel8_64(i),
            Code::JeRel32_64 => self.instr_je_rel32_64(i),
            _ => Err(AxError::new(AxErrorKind::Unimplemented)),
        }
    }

    /// JE rel8, 64-bit operand size: branches to a 64-bit near target.
    fn instr_je_rel8_64(&mut self, i: &Instruction) -> (r: Result<(), AxError>)
        requires
            old(self)@.wf(),
            i.code == Code::JeRel8_64,
        ensures
            final(self)@.wf(),
            step_matches(old(self)@, final(self)@, r, spec_mnemonic_je(old(self)@, *i)),
    {
        if self.rflags & FLAG_ZF == 0 {
            return Ok(());
        }
        let op0 = match i.operand(0) {
            Ok(o) => o,
            Err(e) => {
                return Err(e);
            },
        };
        match op0 {
            Operand::NearBranch { kind: BranchKind::Near64, target } => {
                self.regs.set_rip(target);
                Ok(())
            },
            _ => Err(AxError::new(AxErrorKind::InvalidOperand)),
        }
    }

    /// JE rel32, 64-bit operand size: branches to a 32-bit near target,
    /// sign-extended, or to a 64-bit near target.
    fn instr_je_rel32_64(&mut self, i: &Instruction) -> (r: Result<(), AxError>)
        requires
            old(self)@.wf(),
            i.code == Code::JeRel32_64,
        ensures
            final(self)@.wf(),
            step_matches(old(self)@, final(self)@, r, spec_mnemonic_je(old(self)@, *i)),
    {
        if self.rflags & FLAG_ZF == 0 {
            return Ok(());
        }
        let op0 = match i.operand(0) {
            Ok(o) => o,
            Err(e) => {
                return Err(e);
            },
        };
        match op0 {
            Operand::NearBranch { kind: BranchKind::Near32, target } => {
                let extended: u64 = crate::calculate::sign_extend(Width::W32, Width::W64, target);
                self.regs.set_rip(extended);
                Ok(())
            },
            Operand::NearBranch { kind: BranchKind::Near64, target } => {
                self.regs.set_rip(target);
                Ok(())
            },
            _ => Err(AxError::new(AxErrorKind::InvalidOperand)),
        }
    }
}

/// A conditional branch is taken exactly when the tested flag condition
/// holds, stated for both implemented JE forms with a 64-bit near target:
/// when the Zero flag is set, the instruction pointer becomes the branch
/// target and no register, flag or memory location besides it changes; when
/// the Zero flag is clear, the entire state is unchanged, so execution falls
/// through to the address just past the branch, where the host's step loop
/// left the instruction pointer.
pub proof fn lemma_je_taken_iff_zero_flag(pre: AxV, i: Instruction, target: u64)
    requires
        i.code == Code::JeRel8_64 || i.code == Code::JeRel32_64,
        i.operands@ == seq![Operand::NearBranch { kind: BranchKind::Near64, target }],
    ensures
        spec_mnemonic_je(pre, i) is Next,
        pre.rflags & FLAG_ZF != 0 ==> spec_mnemonic_je(pre, i).next_state() == pre.with_regs(
            pre.regs.write_rip(target),
        ),
        pre.rflags & FLAG_ZF == 0 ==> spec_mnemonic_je(pre, i).next_state() == pre,
{
}

/// A conditional branch is taken exactly when the tested flag condition
/// holds: comparing a 64-bit register against an immediate and then executing
/// JE moves the instruction pointer to the branch target exactly when the
/// register equals the sign-extended immediate; otherwise the instruction
/// pointer is untouched and keeps the address of the next instruction that
/// the host's step loop gave it. Neither instruction changes any register but
/// the instruction pointer, and neither touches memory.
pub proof fn lemma_cmp_je_taken_iff_equal(
    pre: AxV,
    cmp: Instruction,
    je: Instruction,
    g: Gpr,
    k: u64,
    target: u64,
)
    requires
        pre.wf(),
        cmp.code == Code::CmpRm64Imm8,
        cmp.operands@ == seq![
            Operand::Register(RegView { gpr: g, width: Width::W64, high: false }),
            Operand::Immediate { size: Width::W8, data: k },
        ],
        je.code == Code::JeRel32_64,
        je.operands@ == seq![Operand::NearBranch { kind: BranchKind::Near64, target }],
    ensures
        spec_mnemonic_cmp(pre, cmp) is Next,
        ({
            let mid = spec_mnemonic_cmp(pre, cmp).next_state();
            let taken = pre.regs.read_view(RegView { gpr: g, width: Width::W64, high: false })
                == spec_sext(Width::W8, Width::W64, k);
            &&& mid.regs == pre.regs
            &&& mid.memory == pre.memory
            &&& spec_mnemonic_je(mid, je) is Next
            &&& spec_mnemonic_je(mid, je).next_state().regs.rip == (if taken {
                target
            } else {
                pre.regs.rip
            })
            &&& spec_mnemonic_je(mid, je).next_state().memory == pre.memory
        }),
{
    let v = RegView { gpr: g, width: Width::W64, high: false };
    let sv = spec_sext(Width::W8, Width::W64, k);
    let dv = pre.regs.read_view(v);
    let res = spec_alu_result(AluOp::Sub, Width::W64, dv, sv);
    let extra = spec_alu_flags(AluOp::Sub, Width::W64, dv, sv);
    let zsp = spec_zsp(Width::W64, res);
    let mid = spec_mnemonic_cmp(pre, cmp).next_state();
    lemma_alu_bounds(AluOp::Sub, Width::W64, dv, sv);
    lemma_cmp_zero_iff_equal(Width::W64, dv, sv);
    // The Zero flag after the comparison is exactly the computed zero bit.
    assert(extra & 0x40u64 == 0) by (bit_vector)
        requires
            extra & !(0x1u64 | 0x800 | 0x10) == 0,
    ;
    assert(mid.rflags == spec_flags_after(
        pre.rflags,
        (FLAG_ZF | FLAG_SF | FLAG_PF) | extra,
        FLAG_CF | FLAG_OF | FLAG_AF,
        res,
        Width::W64,
    ));
    let f = mid.rflags;
    let prf = pre.rflags;
    assert(f & 0x40u64 == zsp & 0x40u64) by (bit_vector)
        requires
            extra & 0x40u64 == 0,
            f == (prf & !((0x1u64 | 0x800 | 0x10) | ((0x40u64 | 0x80 | 0x4) | extra))) | (((0x40u64
                | 0x80 | 0x4) | extra) & !(0x4u64 | 0x40 | 0x80)) | (zsp & ((0x40u64 | 0x80 | 0x4)
                | extra)),
    ;
    // The computed zero bit decides equality of the compared values.
    let zf_bit: u64 = if spec_zf(Width::W64, res) {
        FLAG_ZF
    } else {
        0
    };
    let sf_bit: u64 = if spec_sf(Width::W64, res) {
        FLAG_SF
    } else {
        0
    };
    let pf_bit: u64 = if spec_pf(res) {
        FLAG_PF
    } else {
        0
    };
    assert((zf_bit | sf_bit | pf_bit) & 0x40u64 == zf_bit) by (bit_vector)
        requires
            zf_bit == 0 || zf_bit == 0x40u64,
            sf_bit == 0 || sf_bit == 0x80u64,
            pf_bit == 0 || pf_bit == 0x4u64,
    ;
    assert(res & 0xffff_ffff_ffff_ffffu64 == res) by (bit_vector);
    assert(dv & 0xffff_ffff_ffff_ffffu64 == dv) by (bit_vector);
    assert(sv & 0xffff_ffff_ffff_ffffu64 == sv) by (bit_vector);
    assert(spec_zf(Width::W64, res) <==> res == 0);
    assert((res == 0) <==> (dv == sv));
    // The branch reads that flag and nothing else.
    if f & FLAG_ZF == 0 {
        assert(spec_mnemonic_je(mid, je) == StepR::Next(mid));
    } else {
        assert(spec_mnemonic_je(mid, je) == StepR::Next(mid.with_regs(mid.regs.write_rip(target))));
    }
}

} // verus!
