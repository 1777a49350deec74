//! The decoded-instruction model and the operand resolver.
//!
//! Decoding raw bytes is the host's job: the core consumes a structured
//! [`Instruction`] carrying an encoding-form tag, the instruction's byte
//! length and one descriptor per operand. The resolver turns a memory operand
//! descriptor into an effective address, computed as
//! `base + index * scale + displacement` with wrapping 64-bit arithmetic; a
//! RIP-relative operand uses the instruction-pointer register as base, which
//! the host has already advanced past the current instruction, so the
//! displacement is relative to the address of the *next* instruction.

use vstd::prelude::*;

use crate::axecutor::Axecutor;
use crate::errors::AxError;
use crate::errors::AxErrorKind;
use crate::registers::Gpr;
use crate::registers::RegView;
use crate::registers::RegsV;
use crate::registers::Width;

verus! {

/// The symbolic instruction name covering one or more encoding forms.
#[derive(Clone, Copy, Debug, PartialEq, Eq, Structural)]
pub enum Mnemonic {
    Xor,
    Cmp,
    Je,
}

/// One byte-level encoding form of a mnemonic, fixing operand widths and
/// kinds.
#[derive(Clone, Copy, Debug, PartialEq, Eq, Structural)]
pub enum Code {
    XorRm8R8,
    XorRm16R16,
    XorRm32R32,
    XorRm64R64,
    XorR8Rm8,
    XorR16Rm16,
    XorR32Rm32,
    XorR64Rm64,
    XorAlImm8,
    XorAxImm16,
    XorEaxImm32,
    XorRaxImm32,
    XorRm8Imm8,
    XorRm16Imm16,
    XorRm32Imm32,
    XorRm64Imm32,
    XorRm8Imm8_82,
    XorRm16Imm8,
    XorRm32Imm8,
    XorRm64Imm8,
    CmpRm64Imm8,
    JeRel8_16,
    JeRel8_32,
    JeRel8_64,
    JecxzRel8_16,
    JecxzRel8_32,
    JecxzRel8_64,
    JeRel16,
    JeRel32_32,
    JeRel32_64,
}

impl Code {
    /// The mnemonic this encoding form belongs to.
    pub open spec fn mnemonic(self) -> Mnemonic {
        match self {
            Code::XorRm8R8 => Mnemonic::Xor,
            Code::XorRm16R16 => Mnemonic::Xor,
            Code::XorRm32R32 => Mnemonic::Xor,
            Code::XorRm64R64 => Mnemonic::Xor,
            Code::XorR8Rm8 => Mnemonic::Xor,
            Code::XorR16Rm16 => Mnemonic::Xor,
            Code::XorR32Rm32 => Mnemonic::Xor,
            Code::XorR64Rm64 => Mnemonic::Xor,
            Code::XorAlImm8 => Mnemonic::Xor,
            Code::XorAxImm16 => Mnemonic::Xor,
            Code::XorEaxImm32 => Mnemonic::Xor,
            Code::XorRaxImm32 => Mnemonic::Xor,
            Code::XorRm8Imm8 => Mnemonic::Xor,
            Code::XorRm16Imm16 => Mnemonic::Xor,
            Code::XorRm32Imm32 => Mnemonic::Xor,
            Code::XorRm64Imm32 => Mnemonic::Xor,
            Code::XorRm8Imm8_82 => Mnemonic::Xor,
            Code::XorRm16Imm8 => Mnemonic::Xor,
            Code::XorRm32Imm8 => Mnemonic::Xor,
            Code::XorRm64Imm8 => Mnemonic::Xor,
            Code::CmpRm64Imm8 => Mnemonic::Cmp,
            Code::JeRel8_16 => Mnemonic::Je,
            Code::JeRel8_32 => Mnemonic::Je,
            Code::JeRel8_64 => Mnemonic::Je,
            Code::JecxzRel8_16 => Mnemonic::Je,
            Code::JecxzRel8_32 => Mnemonic::Je,
            Code::JecxzRel8_64 => Mnemonic::Je,
            Code::JeRel16 => Mnemonic::Je,
            Code::JeRel32_32 => Mnemonic::Je,
            Code::JeRel32_64 => Mnemonic::Je,
        }
    }

    /// The mnemonic this encoding form belongs to.
    #[verifier::when_used_as_spec(mnemonic)]
    pub fn mnemonic_exec(self) -> (r: Mnemonic)
        ensures
            r == self.mnemonic(),
    {
        match self {
            Code::XorRm8R8 | Code::XorRm16R16 | Code::XorRm32R32 | Code::XorRm64R64
            | Code::XorR8Rm8 | Code::XorR16Rm16 | Code::XorR32Rm32 | Code::XorR64Rm64
            | Code::XorAlImm8 | Code::XorAxImm16 | Code::XorEaxImm32 | Code::XorRaxImm32
            | Code::XorRm8Imm8 | Code::XorRm16Imm16 | Code::XorRm32Imm32 | Code::XorRm64Imm32
            | Code::XorRm8Imm8_82 | Code::XorRm16Imm8 | Code::XorRm32Imm8 | Code::XorRm64Imm8 => Mnemonic::Xor,
            Code::CmpRm64Imm8 => Mnemonic::Cmp,
            Code::JeRel8_16 | Code::JeRel8_32 | Code::JeRel8_64 | Code::JecxzRel8_16
            | Code::JecxzRel8_32 | Code::JecxzRel8_64 | Code::JeRel16 | Code::JeRel32_32
            | Code::JeRel32_64 => Mnemonic::Je,
        }
    }
}

/// The width of a near-branch target as the decoder declared it.
#[derive(Clone, Copy, Debug, PartialEq, Eq, Structural)]
pub enum BranchKind {
    Near16,
    Near32,
    Near64,
}

/// The base register of a memory operand.
#[derive(Clone, Copy, Debug, PartialEq, Eq, Structural)]
pub enum MemBase {
    NoBase,
    Reg(Gpr),
    Rip,
}

/// The components of a memory operand's effective address:
/// `base + index * scale + displacement`.
#[derive(Clone, Copy, Debug, PartialEq, Eq, Structural)]
pub struct MemOperand {
    pub base: MemBase,
    pub index: Option<Gpr>,
    pub scale: u64,
    pub displacement: u64,
}

/// A transient, per-instruction tagged operand value.
#[derive(Clone, Copy, Debug, PartialEq, Eq, Structural)]
pub enum Operand {
    /// A register reference with its implied width.
    Register(RegView),
    /// A memory operand, resolved to an effective address on use.
    Memory(MemOperand),
    /// An immediate payload with its declared byte width.
    Immediate { size: Width, data: u64 },
    /// An absolute near-branch target at its declared width.
    NearBranch { kind: BranchKind, target: u64 },
}

/// One decoded instruction, as the host's decoder hands it to the core: the
/// encoding form, the instruction's byte length and its operand descriptors.
#[derive(Clone, Debug)]
pub struct Instruction {
    pub code: Code,
    pub length: u64,
    pub operands: Vec<Operand>,
}

impl Instruction {
    /// The operand at `idx`; an operand-kind error when the instruction has
    /// fewer operands, which signals a decoder/handler mismatch.
    pub fn operand(&self, idx: usize) -> (r: Result<Operand, AxError>)
        ensures
            idx < self.operands@.len() ==> r == Ok::<Operand, AxError>(self.operands@[idx as int]),
            idx >= self.operands@.len() ==> (r matches Err(e) && e.kind
                == AxErrorKind::InvalidOperand),
    {
        if idx < self.operands.len() {
            Ok(self.operands[idx])
        } else {
            Err(AxError::new(AxErrorKind::InvalidOperand))
        }
    }

    /// The conventional two-operand "destination, source" pair; an
    /// operand-kind error when the instruction has fewer than two operands.
    pub fn operands_2(&self) -> (r: Result<(Operand, Operand), AxError>)
        ensures
            self.operands@.len() >= 2 ==> r == Ok::<(Operand, Operand), AxError>(
                (self.operands@[0], self.operands@[1]),
            ),
            self.operands@.len() < 2 ==> (r matches Err(e) && e.kind
                == AxErrorKind::InvalidOperand),
    {
        if self.operands.len() >= 2 {
            Ok((self.operands[0], self.operands[1]))
        } else {
            Err(AxError::new(AxErrorKind::InvalidOperand))
        }
    }
}

/// The effective address of a memory operand against a register bank:
/// `base + index * scale + displacement`, each step with wrapping 64-bit
/// arithmetic. A RIP-relative operand takes the instruction pointer as base.
pub open spec fn spec_mem_addr(regs: RegsV, m: MemOperand) -> u64 {
    let base = match m.base {
        MemBase::NoBase => 0u64,
        MemBase::Reg(g) => regs.read_view(RegView { gpr: g, width: Width::W64, high: false }),
        MemBase::Rip => regs.rip,
    };
    let index = match m.index {
        Some(g) => regs.read_view(RegView { gpr: g, width: Width::W64, high: false }),
        None => 0u64,
    };
    vstd::wrapping::u64_specs::wrapping_add(
        vstd::wrapping::u64_specs::wrapping_add(
            base,
            vstd::wrapping::u64_specs::wrapping_mul(index, m.scale),
        ),
        m.displacement,
    )
}

impl Axecutor {
    /// Computes the effective address of a memory operand from the current
    /// register bank.
    pub fn mem_addr(&self, m: MemOperand) -> (r: u64)
        requires
            self@.wf(),
        ensures
            r == spec_mem_addr(self@.regs, m),
    {
        let base: u64 = match m.base {
            MemBase::NoBase => 0,
            MemBase::Reg(g) => self.regs.read(RegView { gpr: g, width: Width::W64, high: false }),
            MemBase::Rip => self.regs.rip(),
        };
        let index: u64 = match m.index {
            Some(g) => self.regs.read(RegView { gpr: g, width: Width::W64, high: false }),
            None => 0,
        };
        base.wrapping_add(index.wrapping_mul(m.scale)).wrapping_add(m.displacement)
    }
}

/// RIP-relative addressing is relative to the address *after* the full
/// instruction: with the instruction pointer advanced past an instruction
/// that started at `instr_start` and is `instr_len` bytes long, a
/// RIP-relative operand without index resolves to
/// `instr_start + instr_len + displacement` (wrapping).
pub proof fn lemma_rip_relative_addressing(
    regs: RegsV,
    m: MemOperand,
    instr_start: u64,
    instr_len: u64,
)
    requires
        m.base == MemBase::Rip,
        m.index is None,
        regs.rip == vstd::wrapping::u64_specs::wrapping_add(instr_start, instr_len),
    ensures
        spec_mem_addr(regs, m) == vstd::wrapping::u64_specs::wrapping_add(
            vstd::wrapping::u64_specs::wrapping_add(instr_start, instr_len),
            m.displacement,
        ),
{
}

} // verus!
