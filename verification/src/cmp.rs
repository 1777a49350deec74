//! The CMP instruction handler.
//!
//! CMP is subtraction with write-back suppressed: it computes the difference
//! of its operands only to update the status flags, leaving the destination
//! untouched. Zero, Sign and Parity are computed from the difference; the
//! subtraction itself contributes borrow (Carry), signed overflow (Overflow)
//! and low-nibble borrow (Adjust), with the clear mask zeroing whichever of
//! those the operands do not produce.

use vstd::prelude::*;

use crate::axecutor::AxV;
use crate::axecutor::Axecutor;
use crate::calculate::spec_alu_result;
use crate::calculate::spec_calculate_rm_src;
use crate::calculate::step_matches;
use crate::calculate::AluOp;
use crate::calculate::StepR;
use crate::errors::AxError;
use crate::errors::AxErrorKind;
use crate::flags::FLAG_AF;
use crate::flags::FLAG_CF;
use crate::flags::FLAG_OF;
use crate::flags::FLAG_PF;
use crate::flags::FLAG_SF;
use crate::flags::FLAG_ZF;
use crate::operand::Code;
use crate::operand::Instruction;
use crate::operand::Mnemonic;
use crate::registers::Width;

verus! {

/// The flags CMP computes from the difference.
pub const CMP_FLAGS_TO_SET: u64 = FLAG_ZF | FLAG_SF | FLAG_PF;

/// The flags the subtraction itself decides: cleared unless the operands
/// produce them.
pub const CMP_FLAGS_TO_CLEAR: u64 = FLAG_CF | FLAG_OF | FLAG_AF;

/// The spec-level outcome of one CMP instruction.
pub open spec fn spec_mnemonic_cmp(pre: AxV, i: Instruction) -> StepR {
    match i.code {
        Code::CmpRm64Imm8 => spec_calculate_rm_src(
            pre,
            i,
            Width::W64,
            Width::W8,
            AluOp::Sub,
            CMP_FLAGS_TO_SET,
            CMP_FLAGS_TO_CLEAR,
            false,
        ),
        _ => StepR::Fail(AxErrorKind::Unimplemented),
    }
}

impl Axecutor {
    /// Executes one CMP instruction: a subtraction through the calculation
    /// template with write-back suppressed, so only the flags change.
    pub fn mnemonic_cmp(&mut self, i: &Instruction) -> (r: Result<(), AxError>)
        requires
            old(self)@.wf(),
            i.code.mnemonic() == Mnemonic::Cmp,
        ensures
            final(self)@.wf(),
            step_matches(old(self)@, final(self)@, r, spec_mnemonic_cmp(old(self)@, *i)),
    {
        proof {
            crate::flags::lemma_flag_groups_disjoint();
        }
        match i.code {
            Code::CmpRm64Imm8 => self.calculate_rm_src(
                i,
                Width::W64,
                Width::W8,
                AluOp::Sub,
                CMP_FLAGS_TO_SET,
                CMP_FLAGS_TO_CLEAR,
                false,
            ),
            _ => Err(AxError::new(AxErrorKind::Unimplemented)),
        }
    }
}

/// A comparison's difference is zero exactly when the operands agree at the
/// operand width, so the Zero flag after CMP decides equality.
pub proof fn lemma_cmp_zero_iff_equal(w: Width, d: u64, s: u64)
    ensures
        (spec_alu_result(AluOp::Sub, w, d, s) == 0) <==> (d & w.mask() == s & w.mask()),
{
    let m = w.mask();
    let dm = d & m;
    let sm = s & m;
    crate::calculate::lemma_and_mask_le(d, m);
    crate::calculate::lemma_and_mask_le(s, m);
    if dm < sm {
        assert(spec_alu_result(AluOp::Sub, w, d, s) == (dm - sm + m + 1) as u64);
        assert(1 <= dm - sm + m + 1 <= m);
    }
}

} // verus!
