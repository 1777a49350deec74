//! The XOR instruction handler.
//!
//! One dispatch entry point per the mnemonic, delegating by encoding form to
//! the generic calculation templates with the bitwise-exclusive-or operation.
//! XOR computes Zero, Sign and Parity from its result and unconditionally
//! clears Carry and Overflow; Adjust is left unaffected, the architectural
//! convention for logical operations.

use vstd::prelude::*;

use crate::axecutor::AxV;
use crate::axecutor::Axecutor;
use crate::calculate::spec_alu_result;
use crate::calculate::spec_binop_rflags;
use crate::calculate::spec_calculate_r_rm;
use crate::calculate::spec_calculate_rm_src;
use crate::calculate::step_matches;
use crate::calculate::AluOp;
use crate::calculate::StepR;
use crate::errors::AxError;
use crate::errors::AxErrorKind;
use crate::flags::spec_flags_after;
use crate::flags::spec_zsp;
use crate::flags::FLAG_AF;
use crate::flags::FLAG_CF;
use crate::flags::FLAG_OF;
use crate::flags::FLAG_PF;
use crate::flags::FLAG_SF;
use crate::flags::FLAG_ZF;
use crate::operand::Code;
use crate::operand::Instruction;
use crate::operand::Mnemonic;
use crate::registers::RegView;
use crate::registers::RegsV;
use crate::registers::Width;

verus! {

/// The flags XOR computes from its result.
pub const XOR_FLAGS_TO_SET: u64 = FLAG_ZF | FLAG_SF | FLAG_PF;

/// The flags XOR unconditionally clears.
pub const XOR_FLAGS_TO_CLEAR: u64 = FLAG_CF | FLAG_OF;

/// The spec-level outcome of one XOR instruction.
pub open spec fn spec_mnemonic_xor(pre: AxV, i: Instruction) -> StepR {
    match i.code {
        Code::XorRm8R8 => spec_calculate_rm_src(
            pre,
            i,
            Width::W8,
            Width::W8,
            AluOp::Xor,
            XOR_FLAGS_TO_SET,
            XOR_FLAGS_TO_CLEAR,
            true,
        ),
        Code::XorRm16R16 => spec_calculate_rm_src(
            pre,
            i,
            Width::W16,
            Width::W16,
            AluOp::Xor,
            XOR_FLAGS_TO_SET,
            XOR_FLAGS_TO_CLEAR,
            true,
        ),
        Code::XorRm32R32 => spec_calculate_rm_src(
            pre,
            i,
            Width::W32,
            Width::W32,
            AluOp::Xor,
            XOR_FLAGS_TO_SET,
            XOR_FLAGS_TO_CLEAR,
            true,
        ),
        Code::XorRm64R64 => spec_calculate_rm_src(
            pre,
            i,
            Width::W64,
            Width::W64,
            AluOp::Xor,
            XOR_FLAGS_TO_SET,
            XOR_FLAGS_TO_CLEAR,
            true,
        ),
        Code::XorR8Rm8 => spec_calculate_r_rm(
            pre,
            i,
            Width::W8,
            AluOp::Xor,
            XOR_FLAGS_TO_SET,
            XOR_FLAGS_TO_CLEAR,
            true,
        ),
        Code::XorR16Rm16 => spec_calculate_r_rm(
            pre,
            i,
            Width::W16,
            AluOp::Xor,
            XOR_FLAGS_TO_SET,
            XOR_FLAGS_TO_CLEAR,
            true,
        ),
        Code::XorR32Rm32 => spec_calculate_r_rm(
            pre,
            i,
            Width::W32,
            AluOp::Xor,
            XOR_FLAGS_TO_SET,
            XOR_FLAGS_TO_CLEAR,
            true,
        ),
        Code::XorR64Rm64 => spec_calculate_r_rm(
            pre,
            i,
            Width::W64,
            AluOp::Xor,
            XOR_FLAGS_TO_SET,
            XOR_FLAGS_TO_CLEAR,
            true,
        ),
        Code::XorAlImm8 => spec_calculate_rm_src(
            pre,
            i,
            Width::W8,
            Width::W8,
            AluOp::Xor,
            XOR_FLAGS_TO_SET,
            XOR_FLAGS_TO_CLEAR,
            true,
        ),
        Code::XorAxImm16 => spec_calculate_rm_src(
            pre,
            i,
            Width::W16,
            Width::W16,
            AluOp::Xor,
            XOR_FLAGS_TO_SET,
            XOR_FLAGS_TO_CLEAR,
            true,
        ),
        Code::XorEaxImm32 => spec_calculate_rm_src(
            pre,
            i,
            Width::W32,
            Width::W32,
            AluOp::Xor,
            XOR_FLAGS_TO_SET,
            XOR_FLAGS_TO_CLEAR,
            true,
        ),
        Code::XorRaxImm32 => spec_calculate_rm_src(
            pre,
            i,
            Width::W64,
            Width::W32,
            AluOp::Xor,
            XOR_FLAGS_TO_SET,
            XOR_FLAGS_TO_CLEAR,
            true,
        ),
        Code::XorRm8Imm8 => spec_calculate_rm_src(
            pre,
            i,
            Width::W8,
            Width::W8,
            AluOp::Xor,
            XOR_FLAGS_TO_SET,
            XOR_FLAGS_TO_CLEAR,
            true,
        ),
        Code::XorRm16Imm16 => spec_calculate_rm_src(
            pre,
            i,
            Width::W16,
            Width::W16,
            AluOp::Xor,
            XOR_FLAGS_TO_SET,
            XOR_FLAGS_TO_CLEAR,
            true,
        ),
        Code::XorRm32Imm32 => spec_calculate_rm_src(
            pre,
            i,
            Width::W32,
            Width::W32,
            AluOp::Xor,
            XOR_FLAGS_TO_SET,
            XOR_FLAGS_TO_CLEAR,
            true,
        ),
        Code::XorRm64Imm32 => spec_calculate_rm_src(
            pre,
            i,
            Width::W64,
            Width::W32,
            AluOp::Xor,
            XOR_FLAGS_TO_SET,
            XOR_FLAGS_TO_CLEAR,
            true,
        ),
        _ => StepR::Fail(AxErrorKind::Unimplemented),
    }
}

impl Axecutor {
    /// Executes one XOR instruction: dispatches on the precise encoding form
    /// and delegates to the matching calculation template. Encoding forms
    /// whose semantics are not implemented fail distinctly, changing nothing.
    pub fn mnemonic_xor(&mut self, i: &Instruction) -> (r: Result<(), AxError>)
        requires
            old(self)@.wf(),
            i.code.mnemonic() == Mnemonic::Xor,
        ensures
            final(self)@.wf(),
            step_matches(old(self)@, final(self)@, r, spec_mnemonic_xor(old(self)@, *i)),
    {
        proof {
            crate::flags::lemma_flag_groups_disjoint();
        }
        match i.code {
            Code::XorRm8R8 => self.calculate_rm_src(
                i,
                Width::W8,
                Width::W8,
                AluOp::Xor,
                XOR_FLAGS_TO_SET,
                XOR_FLAGS_TO_CLEAR,
                true,
            ),
            Code::XorRm16R16 => self.calculate_rm_src(
                i,
                Width::W16,
                Width::W16,
                AluOp::Xor,
                XOR_FLAGS_TO_SET,
                XOR_FLAGS_TO_CLEAR,
                true,
            ),
            Code::XorRm32R32 => self.calculate_rm_src(
                i,
                Width::W32,
                Width::W32,
                AluOp::Xor,
                XOR_FLAGS_TO_SET,
                XOR_FLAGS_TO_CLEAR,
                true,
            ),
            Code::XorRm64R64 => self.calculate_rm_src(
                i,
                Width::W64,
                Width::W64,
                AluOp::Xor,
                XOR_FLAGS_TO_SET,
                XOR_FLAGS_TO_CLEAR,
                true,
            ),
            Code::XorR8Rm8 => self.calculate_r_rm(
                i,
                Width::W8,
                AluOp::Xor,
                XOR_FLAGS_TO_SET,
                XOR_FLAGS_TO_CLEAR,
                true,
            ),
            Code::XorR16Rm16 => self.calculate_r_rm(
                i,
                Width::W16,
                AluOp::Xor,
                XOR_FLAGS_TO_SET,
                XOR_FLAGS_TO_CLEAR,
                true,
            ),
            Code::XorR32Rm32 => self.calculate_r_rm(
                i,
                Width::W32,
                AluOp::Xor,
                XOR_FLAGS_TO_SET,
                XOR_FLAGS_TO_CLEAR,
                true,
            ),
            Code::XorR64Rm64 => self.calculate_r_rm(
                i,
                Width::W64,
                AluOp::Xor,
                XOR_FLAGS_TO_SET,
                XOR_FLAGS_TO_CLEAR,
                true,
            ),
            Code::XorAlImm8 => self.calculate_rm_src(
                i,
                Width::W8,
                Width::W8,
                AluOp::Xor,
                XOR_FLAGS_TO_SET,
                XOR_FLAGS_TO_CLEAR,
                true,
            ),
            Code::XorAxImm16 => self.calculate_rm_src(
                i,
                Width::W16,
                Width::W16,
                AluOp::Xor,
                XOR_FLAGS_TO_SET,
                XOR_FLAGS_TO_CLEAR,
                true,
            ),
            Code::XorEaxImm32 => self.calculate_rm_src(
                i,
                Width::W32,
                Width::W32,
                AluOp::Xor,
                XOR_FLAGS_TO_SET,
                XOR_FLAGS_TO_CLEAR,
                true,
            ),
            Code::XorRaxImm32 => self.calculate_rm_src(
                i,
                Width::W64,
                Width::W32,
                AluOp::Xor,
                XOR_FLAGS_TO_SET,
                XOR_FLAGS_TO_CLEAR,
                true,
            ),
            Code::XorRm8Imm8 => self.calculate_rm_src(
                i,
                Width::W8,
                Width::W8,
                AluOp::Xor,
                XOR_FLAGS_TO_SET,
                XOR_FLAGS_TO_CLEAR,
                true,
            ),
            Code::XorRm16Imm16 => self.calculate_rm_src(
                i,
                Width::W16,
                Width::W16,
                AluOp::Xor,
                XOR_FLAGS_TO_SET,
                XOR_FLAGS_TO_CLEAR,
                true,
            ),
            Code::XorRm32Imm32 => self.calculate_rm_src(
                i,
                Width::W32,
                Width::W32,
                AluOp::Xor,
                XOR_FLAGS_TO_SET,
                XOR_FLAGS_TO_CLEAR,
                true,
            ),
            Code::XorRm64Imm32 => self.calculate_rm_src(
                i,
                Width::W64,
                Width::W32,
                AluOp::Xor,
                XOR_FLAGS_TO_SET,
                XOR_FLAGS_TO_CLEAR,
                true,
            ),
            _ => Err(AxError::new(AxErrorKind::Unimplemented)),
        }
    }
}

/// XOR of a value with itself yields zero at every width, and the XOR flag
/// update then sets Zero and Parity and clears Sign, Carry and Overflow,
/// whatever the flags held before; Adjust keeps its old value.
pub proof fn lemma_xor_self_zeroes(w: Width, x: u64, flags_before: u64)
    ensures
        spec_alu_result(AluOp::Xor, w, x, x) == 0,
        spec_binop_rflags(flags_before, w, AluOp::Xor, x, x, XOR_FLAGS_TO_SET, XOR_FLAGS_TO_CLEAR)
            == spec_flags_after(flags_before, XOR_FLAGS_TO_SET, XOR_FLAGS_TO_CLEAR, 0, w),
        ({
            let f = spec_flags_after(flags_before, XOR_FLAGS_TO_SET, XOR_FLAGS_TO_CLEAR, 0, w);
            &&& f & FLAG_ZF != 0
            &&& f & FLAG_PF != 0
            &&& f & FLAG_SF == 0
            &&& f & FLAG_CF == 0
            &&& f & FLAG_OF == 0
            &&& f & FLAG_AF == flags_before & FLAG_AF
        }),
{
    let s = XOR_FLAGS_TO_SET;
    assert(s | 0u64 == s) by (bit_vector);
    let m = w.mask();
    let sm = w.sign_mask();
    assert((x ^ x) & m == 0) by (bit_vector);
    assert(0u64 & m == 0) by (bit_vector);
    assert(0u64 & sm == 0) by (bit_vector);
    assert(((0u64 ^ (0u64 >> 1) ^ (0u64 >> 2) ^ (0u64 >> 3) ^ (0u64 >> 4) ^ (0u64 >> 5) ^ (0u64
        >> 6) ^ (0u64 >> 7)) & 1) == 0) by (bit_vector);
    assert(spec_zsp(w, 0) == FLAG_ZF | 0u64 | FLAG_PF);
    let f = spec_flags_after(flags_before, XOR_FLAGS_TO_SET, XOR_FLAGS_TO_CLEAR, 0, w);
    assert(f == (flags_before & !((FLAG_CF | FLAG_OF) | (FLAG_ZF | FLAG_SF | FLAG_PF))) | ((FLAG_ZF
        | FLAG_SF | FLAG_PF) & !(FLAG_PF | FLAG_ZF | FLAG_SF)) | ((FLAG_ZF | 0u64 | FLAG_PF) & (
    FLAG_ZF | FLAG_SF | FLAG_PF)));
    assert(f & 0x40u64 != 0 && f & 0x4u64 != 0 && f & 0x80u64 == 0 && f & 0x1u64 == 0 && f
        & 0x800u64 == 0 && f & 0x10u64 == flags_before & 0x10u64) by (bit_vector)
        requires
            f == (flags_before & !((0x1u64 | 0x800) | (0x40u64 | 0x80 | 0x4))) | ((0x40u64 | 0x80
                | 0x4) & !(0x4u64 | 0x40 | 0x80)) | ((0x40u64 | 0u64 | 0x4) & (0x40u64 | 0x80
                | 0x4)),
    ;
}

/// XOR is self-inverse: applying `⊕ y` twice to a value restores the value,
/// masked to the operand width. Together with the register round trip of
/// `registers::lemma_reg_write_read_round_trip`, writing `x` to a register
/// view and twice executing XOR of that view with `y` restores `x` at the
/// view's width.
pub proof fn lemma_xor_self_inverse(w: Width, x: u64, y: u64)
    ensures
        spec_alu_result(AluOp::Xor, w, spec_alu_result(AluOp::Xor, w, x, y), y) == x & w.mask(),
{
    let m = w.mask();
    assert((((x ^ y) & m) ^ y) & m == x & m) by (bit_vector);
}

/// XOR is self-inverse through the register bank: writing `x` to a register
/// view and then twice executing XOR of that view with `y` — read the view,
/// xor, write the result back, as the calculation templates do for a register
/// destination — leaves the view holding `x` masked to its width, for every
/// view, every width and every `y`.
pub proof fn lemma_xor_register_self_inverse(regs: RegsV, v: RegView, x: u64, y: u64)
    requires
        regs.wf(),
        v.wf(),
    ensures
        ({
            let b0 = regs.write_view(v, x);
            let b1 = b0.write_view(v, spec_alu_result(AluOp::Xor, v.width, b0.read_view(v), y));
            let b2 = b1.write_view(v, spec_alu_result(AluOp::Xor, v.width, b1.read_view(v), y));
            b2.read_view(v) == x & v.width.mask()
        }),
{
    let m = v.width.mask();
    let b0 = regs.write_view(v, x);
    let b1 = b0.write_view(v, spec_alu_result(AluOp::Xor, v.width, b0.read_view(v), y));
    crate::registers::lemma_reg_write_read_round_trip(regs, v, x);
    crate::registers::lemma_reg_write_read_round_trip(
        b0,
        v,
        spec_alu_result(AluOp::Xor, v.width, b0.read_view(v), y),
    );
    crate::registers::lemma_reg_write_read_round_trip(
        b1,
        v,
        spec_alu_result(AluOp::Xor, v.width, b1.read_view(v), y),
    );
    assert((((((((x & m) ^ y) & m) & m) ^ y) & m) & m) == x & m) by (bit_vector);
}

} // verus!
