//! The generic calculation templates.
//!
//! Three execution shapes shared by all arithmetic/logic handlers, each
//! parametrized by operand width and a pure operation:
//!
//! - `calculate_rm_src`: destination is register-or-memory, source is
//!   register-or-immediate ("rm,r" and "rm,imm" forms);
//! - `calculate_r_rm`: destination is a register, source is
//!   register-or-memory ("r,rm" forms);
//! - `calculate_rm`: one register-or-memory operand, read-modify-write
//!   (unary forms).
//!
//! Each template reads its operands, applies the operation, merges the
//! operation's Carry/Overflow/Adjust contribution with the caller's flag
//! masks (the operation must never contribute a flag the caller already
//! names in its set mask), and writes the result back unless the caller
//! suppresses write-back — compare-style operations affect flags only. The
//! templates are the single place holding the register-versus-memory
//! destination branch; handlers only pick the operation and the masks.

use vstd::prelude::*;

use crate::axecutor::AxV;
use crate::axecutor::Axecutor;
use crate::errors::AxError;
use crate::errors::AxErrorKind;
use crate::flags::spec_flags_after;
use crate::flags::FLAG_AF;
use crate::flags::FLAG_CF;
use crate::flags::FLAG_OF;
use crate::memory::mem_contains;
use crate::memory::read_range;
use crate::memory::write_range;
use crate::operand::spec_mem_addr;
use crate::operand::Instruction;
use crate::operand::MemOperand;
use crate::operand::Operand;
use crate::registers::RegView;
use crate::registers::Width;

verus! {

/// A pure binary operation of the arithmetic/logic unit.
#[derive(Clone, Copy, Debug, PartialEq, Eq, Structural)]
pub enum AluOp {
    /// Bitwise exclusive or; contributes no Carry/Overflow/Adjust.
    Xor,
    /// Two's-complement subtraction; contributes borrow (Carry), signed
    /// overflow (Overflow) and low-nibble borrow (Adjust).
    Sub,
}

/// A pure unary operation of the arithmetic/logic unit.
#[derive(Clone, Copy, Debug, PartialEq, Eq, Structural)]
pub enum UnaryOp {
    /// Bitwise complement; affects no flags.
    Not,
}

/// The result of a binary operation, truncated to the operand width.
pub open spec fn spec_alu_result(op: AluOp, w: Width, d: u64, s: u64) -> u64 {
    match op {
        AluOp::Xor => (d ^ s) & w.mask(),
        AluOp::Sub => {
            let dm = d & w.mask();
            let sm = s & w.mask();
            if dm >= sm {
                (dm - sm) as u64
            } else {
                (dm - sm + w.mask() + 1) as u64
            }
        },
    }
}

/// The Carry/Overflow/Adjust flags a binary operation contributes, packed as
/// flag bits. These are exactly the flags that are not derivable from the
/// result alone.
pub open spec fn spec_alu_flags(op: AluOp, w: Width, d: u64, s: u64) -> u64 {
    match op {
        AluOp::Xor => 0u64,
        AluOp::Sub => {
            let dm = d & w.mask();
            let sm = s & w.mask();
            let res = spec_alu_result(AluOp::Sub, w, d, s);
            (if dm < sm {
                FLAG_CF
            } else {
                0
            }) | (if (dm & w.sign_mask()) != (sm & w.sign_mask()) && (res & w.sign_mask()) != (dm
                & w.sign_mask()) {
                FLAG_OF
            } else {
                0
            }) | (if (d & 0xf) < (s & 0xf) {
                FLAG_AF
            } else {
                0
            })
        },
    }
}

/// The result of a unary operation, truncated to the operand width.
pub open spec fn spec_unary_result(op: UnaryOp, w: Width, d: u64) -> u64 {
    match op {
        UnaryOp::Not => (!d) & w.mask(),
    }
}

/// The flags a unary operation contributes.
pub open spec fn spec_unary_flags(op: UnaryOp, w: Width, d: u64) -> u64 {
    match op {
        UnaryOp::Not => 0u64,
    }
}

/// `value`, truncated to width `from` and sign-extended to width `to`.
/// Meaningful when `from` is at most `to`.
pub open spec fn spec_sext(from: Width, to: Width, value: u64) -> u64 {
    let t = value & from.mask();
    if t & from.sign_mask() != 0 {
        t | (to.mask() & !from.mask())
    } else {
        t
    }
}

/// Computes [`spec_sext`].
pub fn sign_extend(from: Width, to: Width, value: u64) -> (r: u64)
    ensures
        r == spec_sext(from, to, value),
{
    let t: u64 = value & from.mask_exec();
    if t & from.sign_mask_exec() != 0 {
        t | (to.mask_exec() & !from.mask_exec())
    } else {
        t
    }
}

/// Computes a binary operation: the truncated result paired with its
/// Carry/Overflow/Adjust contribution.
pub fn alu_exec(op: AluOp, w: Width, d: u64, s: u64) -> (r: (u64, u64))
    ensures
        r.0 == spec_alu_result(op, w, d, s),
        r.1 == spec_alu_flags(op, w, d, s),
{
    match op {
        AluOp::Xor => ((d ^ s) & w.mask_exec(), 0),
        AluOp::Sub => {
            let mask: u64 = w.mask_exec();
            let dm: u64 = d & mask;
            let sm: u64 = s & mask;
            proof {
                lemma_and_mask_le(d, mask);
                lemma_and_mask_le(s, mask);
            }
            let res: u64 = if matches!(w, Width::W64) {
                dm.wrapping_sub(sm)
            } else if dm >= sm {
                dm - sm
            } else {
                (dm + (mask + 1)) - sm
            };
            let cf: u64 = if dm < sm {
                FLAG_CF
            } else {
                0
            };
            let sign: u64 = w.sign_mask_exec();
            let of: u64 = if (dm & sign) != (sm & sign) && (res & sign) != (dm & sign) {
                FLAG_OF
            } else {
                0
            };
            let af: u64 = if (d & 0xf) < (s & 0xf) {
                FLAG_AF
            } else {
                0
            };
            (res, cf | of | af)
        },
    }
}

/// Masking never increases a value.
pub proof fn lemma_and_mask_le(x: u64, m: u64)
    ensures
        x & m <= m,
        x & m <= x,
{
    assert(x & m <= m && x & m <= x) by (bit_vector);
}

/// A binary operation's flag contribution stays within Carry, Overflow and
/// Adjust, and its result stays within the operand width.
pub proof fn lemma_alu_bounds(op: AluOp, w: Width, d: u64, s: u64)
    ensures
        spec_alu_flags(op, w, d, s) & !(FLAG_CF | FLAG_OF | FLAG_AF) == 0,
        spec_alu_result(op, w, d, s) <= w.mask(),
{
    lemma_and_mask_le(d ^ s, w.mask());
    lemma_and_mask_le(d, w.mask());
    lemma_and_mask_le(s, w.mask());
    let fl = spec_alu_flags(op, w, d, s);
    match op {
        AluOp::Xor => {
            assert(0u64 & !(FLAG_CF | FLAG_OF | FLAG_AF) == 0) by (bit_vector);
        },
        AluOp::Sub => {
            assert(fl == spec_alu_flags(AluOp::Sub, w, d, s));
            assert forall|a: u64, b: u64, c: u64|
                (a == 0 || a == FLAG_CF) && (b == 0 || b == FLAG_OF) && (c == 0 || c == FLAG_AF)
                    implies #[trigger] ((a | b | c) & !(FLAG_CF | FLAG_OF | FLAG_AF)) == 0 by {
                assert((a == 0 || a == 0x1u64) && (b == 0 || b == 0x800u64) && (c == 0 || c
                    == 0x10u64) ==> ((a | b | c) & !(0x1u64 | 0x800 | 0x10)) == 0) by (bit_vector);
            }
        },
    }
}

/// The outcome of one spec-level execution step: either the next machine
/// state or a failure kind, with the state unchanged.
pub ghost enum StepR {
    Next(AxV),
    Fail(AxErrorKind),
}

impl StepR {
    /// The next machine state of a successful step.
    pub open spec fn next_state(self) -> AxV {
        match self {
            StepR::Next(v) => v,
            StepR::Fail(_) => arbitrary(),
        }
    }
}

/// Ties an executed step to its spec-level outcome: on success the final
/// state is exactly the computed next state; on failure the error carries the
/// computed kind and the state is unchanged.
pub open spec fn step_matches(pre: AxV, post: AxV, r: Result<(), AxError>, s: StepR) -> bool {
    match s {
        StepR::Next(v) => r is Ok && post == v,
        StepR::Fail(k) => (r matches Err(e) && e.kind == k) && post == pre,
    }
}

/// The value of a register-or-immediate source operand at width `w`, with an
/// immediate required to carry exactly `imm_w` bytes and sign-extended to
/// `w`; `None` marks an operand kind or width the form does not support.
pub open spec fn spec_src_value(pre: AxV, o: Operand, w: Width, imm_w: Width) -> Option<u64> {
    match o {
        Operand::Register(v) => if v.wf() && v.width == w {
            Some(pre.regs.read_view(v))
        } else {
            None
        },
        Operand::Immediate { size, data } => if size == imm_w {
            Some(spec_sext(imm_w, w, data))
        } else {
            None
        },
        _ => None,
    }
}

/// The little-endian value of `w.bytes()` bytes.
pub open spec fn spec_le_value(w: Width, bytes: Seq<u8>) -> u64 {
    match w {
        Width::W8 => bytes[0] as u64,
        Width::W16 => vstd::bytes::spec_u16_from_le_bytes(bytes) as u64,
        Width::W32 => vstd::bytes::spec_u32_from_le_bytes(bytes) as u64,
        Width::W64 => vstd::bytes::spec_u64_from_le_bytes(bytes),
    }
}

/// The `w.bytes()` little-endian bytes of a value.
pub open spec fn spec_le_bytes(w: Width, value: u64) -> Seq<u8> {
    match w {
        Width::W8 => seq![value as u8],
        Width::W16 => vstd::bytes::spec_u16_to_le_bytes(value as u16),
        Width::W32 => vstd::bytes::spec_u32_to_le_bytes(value as u32),
        Width::W64 => vstd::bytes::spec_u64_to_le_bytes(value),
    }
}

/// The flags word after applying a binary operation: the caller's set mask
/// merged with the operation's contribution, then the clear mask.
pub open spec fn spec_binop_rflags(
    rflags: u64,
    w: Width,
    op: AluOp,
    dv: u64,
    sv: u64,
    set: u64,
    clear: u64,
) -> u64 {
    spec_flags_after(
        rflags,
        set | spec_alu_flags(op, w, dv, sv),
        clear,
        spec_alu_result(op, w, dv, sv),
        w,
    )
}

/// The next state once a destination value `dv` and source value `sv` are
/// known and the destination is the register view `v`.
pub open spec fn spec_reg_dest_step(
    pre: AxV,
    v: RegView,
    w: Width,
    op: AluOp,
    dv: u64,
    sv: u64,
    set: u64,
    clear: u64,
    write_back: bool,
) -> AxV {
    let res = spec_alu_result(op, w, dv, sv);
    (if write_back {
        pre.with_regs(pre.regs.write_view(v, res))
    } else {
        pre
    }).with_rflags(spec_binop_rflags(pre.rflags, w, op, dv, sv, set, clear))
}

/// The next state once a destination value `dv` and source value `sv` are
/// known and the destination is memory at effective address `ea`.
pub open spec fn spec_mem_dest_step(
    pre: AxV,
    ea: u64,
    w: Width,
    op: AluOp,
    dv: u64,
    sv: u64,
    set: u64,
    clear: u64,
    write_back: bool,
) -> AxV {
    let res = spec_alu_result(op, w, dv, sv);
    (if write_back {
        pre.with_memory(write_range(pre.memory, ea, spec_le_bytes(w, res)))
    } else {
        pre
    }).with_rflags(spec_binop_rflags(pre.rflags, w, op, dv, sv, set, clear))
}

/// The spec-level outcome of the "dest ⊕= src" template: destination
/// register-or-memory, source register-or-immediate.
pub open spec fn spec_calculate_rm_src(
    pre: AxV,
    i: Instruction,
    w: Width,
    imm_w: Width,
    op: AluOp,
    set: u64,
    clear: u64,
    write_back: bool,
) -> StepR {
    if i.operands@.len() < 2 {
        StepR::Fail(AxErrorKind::InvalidOperand)
    } else {
        match spec_src_value(pre, i.operands@[1], w, imm_w) {
            None => StepR::Fail(AxErrorKind::InvalidOperand),
            Some(sv) => match i.operands@[0] {
                Operand::Register(v) => if v.wf() && v.width == w {
                    StepR::Next(
                        spec_reg_dest_step(
                            pre,
                            v,
                            w,
                            op,
                            pre.regs.read_view(v),
                            sv,
                            set,
                            clear,
                            write_back,
                        ),
                    )
                } else {
                    StepR::Fail(AxErrorKind::InvalidOperand)
                },
                Operand::Memory(mo) => {
                    let ea = spec_mem_addr(pre.regs, mo);
                    if mem_contains(pre.memory, ea, w.bytes()) {
                        StepR::Next(
                            spec_mem_dest_step(
                                pre,
                                ea,
                                w,
                                op,
                                spec_le_value(w, read_range(pre.memory, ea, w.bytes())),
                                sv,
                                set,
                                clear,
                                write_back,
                            ),
                        )
                    } else {
                        StepR::Fail(AxErrorKind::MemoryAccess)
                    }
                },
                _ => StepR::Fail(AxErrorKind::InvalidOperand),
            },
        }
    }
}

/// The spec-level outcome of the "dest(reg) ⊕= src" template: destination a
/// register, source register-or-memory.
pub open spec fn spec_calculate_r_rm(
    pre: AxV,
    i: Instruction,
    w: Width,
    op: AluOp,
    set: u64,
    clear: u64,
    write_back: bool,
) -> StepR {
    if i.operands@.len() < 2 {
        StepR::Fail(AxErrorKind::InvalidOperand)
    } else {
        match i.operands@[0] {
            Operand::Register(v) => if v.wf() && v.width == w {
                match i.operands@[1] {
                    Operand::Register(sv_view) => if sv_view.wf() && sv_view.width == w {
                        StepR::Next(
                            spec_reg_dest_step(
                                pre,
                                v,
                                w,
                                op,
                                pre.regs.read_view(v),
                                pre.regs.read_view(sv_view),
                                set,
                                clear,
                                write_back,
                            ),
                        )
                    } else {
                        StepR::Fail(AxErrorKind::InvalidOperand)
                    },
                    Operand::Memory(mo) => {
                        let ea = spec_mem_addr(pre.regs, mo);
                        if mem_contains(pre.memory, ea, w.bytes()) {
                            StepR::Next(
                                spec_reg_dest_step(
                                    pre,
                                    v,
                                    w,
                                    op,
                                    pre.regs.read_view(v),
                                    spec_le_value(w, read_range(pre.memory, ea, w.bytes())),
                                    set,
                                    clear,
                                    write_back,
                                ),
                            )
                        } else {
                            StepR::Fail(AxErrorKind::MemoryAccess)
                        }
                    },
                    _ => StepR::Fail(AxErrorKind::InvalidOperand),
                }
            } else {
                StepR::Fail(AxErrorKind::InvalidOperand)
            },
            _ => StepR::Fail(AxErrorKind::InvalidOperand),
        }
    }
}

/// The spec-level outcome of the unary "dest ⊕= dest" template: one
/// register-or-memory operand, read-modify-write.
pub open spec fn spec_calculate_rm(
    pre: AxV,
    i: Instruction,
    w: Width,
    op: UnaryOp,
    set: u64,
    clear: u64,
    write_back: bool,
) -> StepR {
    if i.operands@.len() < 1 {
        StepR::Fail(AxErrorKind::InvalidOperand)
    } else {
        match i.operands@[0] {
            Operand::Register(v) => if v.wf() && v.width == w {
                let dv = pre.regs.read_view(v);
                let res = spec_unary_result(op, w, dv);
                let fl = spec_flags_after(
                    pre.rflags,
                    set | spec_unary_flags(op, w, dv),
                    clear,
                    res,
                    w,
                );
                StepR::Next(
                    (if write_back {
                        pre.with_regs(pre.regs.write_view(v, res))
                    } else {
                        pre
                    }).with_rflags(fl),
                )
            } else {
                StepR::Fail(AxErrorKind::InvalidOperand)
            },
            Operand::Memory(mo) => {
                let ea = spec_mem_addr(pre.regs, mo);
                if mem_contains(pre.memory, ea, w.bytes()) {
                    let dv = spec_le_value(w, read_range(pre.memory, ea, w.bytes()));
                    let res = spec_unary_result(op, w, dv);
                    let fl = spec_flags_after(
                        pre.rflags,
                        set | spec_unary_flags(op, w, dv),
                        clear,
                        res,
                        w,
                    );
                    StepR::Next(
                        (if write_back {
                            pre.with_memory(write_range(pre.memory, ea, spec_le_bytes(w, res)))
                        } else {
                            pre
                        }).with_rflags(fl),
                    )
                } else {
                    StepR::Fail(AxErrorKind::MemoryAccess)
                }
            },
            _ => StepR::Fail(AxErrorKind::InvalidOperand),
        }
    }
}

impl Axecutor {
    /// Reads the `w.bytes()`-byte little-endian value at `address`.
    pub fn mem_read_value(&self, address: u64, w: Width) -> (r: Result<u64, AxError>)
        requires
            self@.wf(),
        ensures
            r is Ok <==> mem_contains(self@.memory, address, w.bytes()),
            r matches Ok(v) ==> v == spec_le_value(w, read_range(self@.memory, address, w.bytes()))
                && v <= w.mask(),
            r matches Err(e) ==> e.kind == AxErrorKind::MemoryAccess,
    {
        match w {
            Width::W8 => match self.mem_read_8(address) {
                Ok(v) => Ok(v as u64),
                Err(e) => Err(e),
            },
            Width::W16 => match self.mem_read_16(address) {
                Ok(v) => Ok(v as u64),
                Err(e) => Err(e),
            },
            Width::W32 => match self.mem_read_32(address) {
                Ok(v) => Ok(v as u64),
                Err(e) => Err(e),
            },
            Width::W64 => self.mem_read_64(address),
        }
    }

    /// Writes `value` at `address` as `w.bytes()` little-endian bytes.
    pub fn mem_write_value(&mut self, address: u64, w: Width, value: u64) -> (r: Result<
        (),
        AxError,
    >)
        requires
            old(self)@.wf(),
            value <= w.mask(),
        ensures
            final(self)@.wf(),
            r is Ok <==> mem_contains(old(self)@.memory, address, w.bytes()),
            r is Ok ==> final(self)@ == old(self)@.with_memory(
                write_range(old(self)@.memory, address, spec_le_bytes(w, value)),
            ),
            r matches Err(e) ==> e.kind == AxErrorKind::MemoryAccess && final(self)@ == old(
                self,
            )@,
    {
        match w {
            Width::W8 => self.mem_write_8(address, value as u8),
            Width::W16 => self.mem_write_16(address, value as u16),
            Width::W32 => self.mem_write_32(address, value as u32),
            Width::W64 => self.mem_write_64(address, value),
        }
    }

    /// The "dest ⊕= src" template: destination register-or-memory, source
    /// register-or-immediate (sign-extended from `imm_w` to `w`). Reads both
    /// operands, applies `op`, merges the flag masks, and writes the result
    /// back unless `write_back` is false.
    pub fn calculate_rm_src(
        &mut self,
        i: &Instruction,
        w: Width,
        imm_w: Width,
        op: AluOp,
        flags_to_set: u64,
        flags_to_clear: u64,
        write_back: bool,
    ) -> (r: Result<(), AxError>)
        requires
            old(self)@.wf(),
            flags_to_set & (FLAG_CF | FLAG_OF | FLAG_AF) == 0,
        ensures
            final(self)@.wf(),
            step_matches(
                old(self)@,
                final(self)@,
                r,
                spec_calculate_rm_src(
                    old(self)@,
                    *i,
                    w,
                    imm_w,
                    op,
                    flags_to_set,
                    flags_to_clear,
                    write_back,
                ),
            ),
    {
        let (dest, src) = match i.operands_2() {
            Ok(p) => p,
            Err(e) => {
                return Err(e);
            },
        };
        let sv: u64 = match src {
            Operand::Register(v) => {
                if v.is_wf() && v.width == w {
                    self.reg_read(v)
                } else {
                    return Err(AxError::new(AxErrorKind::InvalidOperand));
                }
            },
            Operand::Immediate { size, data } => {
                if size == imm_w {
                    sign_extend(imm_w, w, data)
                } else {
                    return Err(AxError::new(AxErrorKind::InvalidOperand));
                }
            },
            _ => {
                return Err(AxError::new(AxErrorKind::InvalidOperand));
            },
        };
        match dest {
            Operand::Register(v) => {
                if v.is_wf() && v.width == w {
                    let dv: u64 = self.reg_read(v);
                    let (res, fl) = alu_exec(op, w, dv, sv);
                    self.set_flags(w, flags_to_set | fl, flags_to_clear, res);
                    if write_back {
                        self.reg_write(v, res);
                    }
                    Ok(())
                } else {
                    Err(AxError::new(AxErrorKind::InvalidOperand))
                }
            },
            Operand::Memory(mo) => {
                let ea: u64 = self.mem_addr(mo);
                let dv: u64 = match self.mem_read_value(ea, w) {
                    Ok(v) => v,
                    Err(e) => {
                        return Err(e);
                    },
                };
                let (res, fl) = alu_exec(op, w, dv, sv);
                self.set_flags(w, flags_to_set | fl, flags_to_clear, res);
                if write_back {
                    proof {
                        lemma_alu_bounds(op, w, dv, sv);
                    }
                    let wr = self.mem_write_value(ea, w, res);
                    proof {
                        assert(wr is Ok);
                    }
                    match wr {
                        Ok(()) => Ok(()),
                        Err(e) => Err(e),
                    }
                } else {
                    Ok(())
                }
            },
            _ => Err(AxError::new(AxErrorKind::InvalidOperand)),
        }
    }

    /// The "dest(reg) ⊕= src" template: destination always a register,
    /// source register-or-memory; the same flag and write-back contract as
    /// [`Axecutor::calculate_rm_src`].
    pub fn calculate_r_rm(
        &mut self,
        i: &Instruction,
        w: Width,
        op: AluOp,
        flags_to_set: u64,
        flags_to_clear: u64,
        write_back: bool,
    ) -> (r: Result<(), AxError>)
        requires
            old(self)@.wf(),
            flags_to_set & (FLAG_CF | FLAG_OF | FLAG_AF) == 0,
        ensures
            final(self)@.wf(),
            step_matches(
                old(self)@,
                final(self)@,
                r,
                spec_calculate_r_rm(
                    old(self)@,
                    *i,
                    w,
                    op,
                    flags_to_set,
                    flags_to_clear,
                    write_back,
                ),
            ),
    {
        let (dest, src) = match i.operands_2() {
            Ok(p) => p,
            Err(e) => {
                return Err(e);
            },
        };
        let v: RegView = match dest {
            Operand::Register(rv) => {
                if rv.is_wf() && rv.width == w {
                    rv
                } else {
                    return Err(AxError::new(AxErrorKind::InvalidOperand));
                }
            },
            _ => {
                return Err(AxError::new(AxErrorKind::InvalidOperand));
            },
        };
        let sv: u64 = match src {
            Operand::Register(rv) => {
                if rv.is_wf() && rv.width == w {
                    self.reg_read(rv)
                } else {
                    return Err(AxError::new(AxErrorKind::InvalidOperand));
                }
            },
            Operand::Memory(mo) => {
                let ea: u64 = self.mem_addr(mo);
                match self.mem_read_value(ea, w) {
                    Ok(x) => x,
                    Err(e) => {
                        return Err(e);
                    },
                }
            },
            _ => {
                return Err(AxError::new(AxErrorKind::InvalidOperand));
            },
        };
        let dv: u64 = self.reg_read(v);
        let (res, fl) = alu_exec(op, w, dv, sv);
        self.set_flags(w, flags_to_set | fl, flags_to_clear, res);
        if write_back {
            self.reg_write(v, res);
        }
        Ok(())
    }

    /// The unary "dest ⊕= dest" template: one register-or-memory operand,
    /// read-modify-write, with the same flag and write-back contract as the
    /// binary templates.
    pub fn calculate_rm(
        &mut self,
        i: &Instruction,
        w: Width,
        op: UnaryOp,
        flags_to_set: u64,
        flags_to_clear: u64,
        write_back: bool,
    ) -> (r: Result<(), AxError>)
        requires
            old(self)@.wf(),
            flags_to_set & (FLAG_CF | FLAG_OF | FLAG_AF) == 0,
        ensures
            final(self)@.wf(),
            step_matches(
                old(self)@,
                final(self)@,
                r,
                spec_calculate_rm(old(self)@, *i, w, op, flags_to_set, flags_to_clear, write_back),
            ),
    {
        let dest = match i.operand(0) {
            Ok(o) => o,
            Err(e) => {
                return Err(e);
            },
        };
        match dest {
            Operand::Register(v) => {
                if v.is_wf() && v.width == w {
                    let dv: u64 = self.reg_read(v);
                    let res: u64 = match op {
                        UnaryOp::Not => (!dv) & w.mask_exec(),
                    };
                    self.set_flags(w, flags_to_set | 0, flags_to_clear, res);
                    if write_back {
                        self.reg_write(v, res);
                    }
                    Ok(())
                } else {
                    Err(AxError::new(AxErrorKind::InvalidOperand))
                }
            },
            Operand::Memory(mo) => {
                let ea: u64 = self.mem_addr(mo);
                let dv: u64 = match self.mem_read_value(ea, w) {
                    Ok(v) => v,
                    Err(e) => {
                        return Err(e);
                    },
                };
                let res: u64 = match op {
                    UnaryOp::Not => (!dv) & w.mask_exec(),
                };
                self.set_flags(w, flags_to_set | 0, flags_to_clear, res);
                if write_back {
                    proof {
                        lemma_and_mask_le(!dv, w.mask());
                    }
                    let wr = self.mem_write_value(ea, w, res);
                    proof {
                        assert(wr is Ok);
                    }
                    match wr {
                        Ok(()) => Ok(()),
                        Err(e) => Err(e),
                    }
                } else {
                    Ok(())
                }
            },
            _ => Err(AxError::new(AxErrorKind::InvalidOperand)),
        }
    }
}

} // verus!
