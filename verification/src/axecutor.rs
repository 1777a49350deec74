//! The emulator instance.
//!
//! One [`Axecutor`] owns a register bank, a flags word and a set of mapped
//! memory areas, together with the bounds of the reserved code region. The
//! host decodes instructions, advances the instruction pointer past each
//! instruction, and calls [`Axecutor::step`] (in the `step` module) to execute
//! its semantics.

use vstd::prelude::*;

use crate::flags::spec_flags_after;
use crate::memory::AreaV;
use crate::memory::MemoryArea;
use crate::registers::Gpr;
use crate::registers::RegView;
use crate::registers::Registers;
use crate::registers::RegsV;
use crate::registers::Width;

verus! {

/// The mathematical model of a full emulator state.
#[verifier::ext_equal]
pub ghost struct AxV {
    pub regs: RegsV,
    pub rflags: u64,
    pub memory: Seq<AreaV>,
    pub code_start_address: u64,
    pub code_length: u64,
    pub stack_top: u64,
}

impl AxV {
    /// The same state with another register bank.
    pub open spec fn with_regs(self, regs: RegsV) -> AxV {
        AxV { regs, ..self }
    }

    /// The same state with another flags word.
    pub open spec fn with_rflags(self, rflags: u64) -> AxV {
        AxV { rflags, ..self }
    }

    /// The same state with other memory contents.
    pub open spec fn with_memory(self, memory: Seq<AreaV>) -> AxV {
        AxV { memory, ..self }
    }

    /// The same state with another recorded top-of-stack address.
    pub open spec fn with_stack_top(self, stack_top: u64) -> AxV {
        AxV { stack_top, ..self }
    }

    /// True when two ranges of the address space share at least one byte.
    pub open spec fn ranges_overlap(s1: u64, l1: u64, s2: u64, l2: u64) -> bool {
        l1 > 0 && l2 > 0 && s1 < s2 + l2 && s2 < s1 + l1
    }

    /// A new area placement is admissible: it fits in the address space and
    /// shares no byte with the reserved code region or any mapped area.
    pub open spec fn can_map(self, start: u64, length: u64) -> bool {
        &&& start + length <= u64::MAX
        &&& !AxV::ranges_overlap(start, length, self.code_start_address, self.code_length)
        &&& forall|j: int|
            0 <= j < self.memory.len() ==> !AxV::ranges_overlap(
                start,
                length,
                (#[trigger] self.memory[j]).start,
                self.memory[j].length,
            )
    }

    /// Well-formedness of a state: sixteen register backings, every area
    /// well-formed, areas pairwise disjoint and disjoint from the code
    /// region, and a code region that fits in the address space.
    pub open spec fn wf(self) -> bool {
        &&& self.regs.wf()
        &&& self.code_start_address + self.code_length <= u64::MAX
        &&& forall|j: int| 0 <= j < self.memory.len() ==> (#[trigger] self.memory[j]).wf()
        &&& forall|j: int|
            0 <= j < self.memory.len() ==> !AxV::ranges_overlap(
                (#[trigger] self.memory[j]).start,
                self.memory[j].length,
                self.code_start_address,
                self.code_length,
            )
        &&& forall|j: int, k: int|
            0 <= j < self.memory.len() && 0 <= k < self.memory.len() && j != k
                ==> !AxV::ranges_overlap(
                (#[trigger] self.memory[j]).start,
                self.memory[j].length,
                (#[trigger] self.memory[k]).start,
                self.memory[k].length,
            )
    }
}

/// An emulator instance: register bank, flags word, mapped memory areas and
/// the reserved code region.
#[derive(Debug)]
pub struct Axecutor {
    pub regs: Registers,
    pub rflags: u64,
    pub memory: Vec<MemoryArea>,
    pub code_start_address: u64,
    pub code_length: u64,
    pub stack_top: u64,
}

impl View for Axecutor {
    type V = AxV;

    open spec fn view(&self) -> AxV {
        AxV {
            regs: self.regs@,
            rflags: self.rflags,
            memory: self.memory@.map_values(|a: MemoryArea| a@),
            code_start_address: self.code_start_address,
            code_length: self.code_length,
            stack_top: self.stack_top,
        }
    }
}

impl Axecutor {
    /// A fresh emulator with zeroed registers and flags, no mapped areas, and
    /// the given reserved code region.
    pub fn new(code_start_address: u64, code_length: u64) -> (r: Axecutor)
        requires
            code_start_address + code_length <= u64::MAX,
        ensures
            r@.wf(),
            r@.memory.len() == 0,
            r@.rflags == 0,
            r@.regs.rip == 0,
            forall|j: int| 0 <= j < 16 ==> r@.regs.gprs[j] == 0,
            r@.code_start_address == code_start_address,
            r@.code_length == code_length,
            r@.stack_top == 0,
    {
        Axecutor {
            regs: Registers::new(),
            rflags: 0,
            memory: Vec::new(),
            code_start_address,
            code_length,
            stack_top: 0,
        }
    }

    /// Reads the value of a register view.
    pub fn reg_read(&self, v: RegView) -> (r: u64)
        requires
            self@.wf(),
        ensures
            r == self@.regs.read_view(v),
    {
        self.regs.read(v)
    }

    /// Writes a value through a register view, applying the aliasing rules of
    /// the register bank. Nothing but that register changes.
    pub fn reg_write(&mut self, v: RegView, value: u64)
        requires
            old(self)@.wf(),
        ensures
            final(self)@ == old(self)@.with_regs(old(self)@.regs.write_view(v, value)),
            final(self)@.wf(),
    {
        self.regs.write(v, value);
    }

    /// Reads the full 64-bit value of a general-purpose register.
    pub fn reg_read_64(&self, gpr: Gpr) -> (r: u64)
        requires
            self@.wf(),
        ensures
            r == self@.regs.read_view(RegView { gpr, width: Width::W64, high: false }),
    {
        self.regs.read(RegView { gpr, width: Width::W64, high: false })
    }

    /// Writes the full 64-bit value of a general-purpose register.
    pub fn reg_write_64(&mut self, gpr: Gpr, value: u64)
        requires
            old(self)@.wf(),
        ensures
            final(self)@ == old(self)@.with_regs(
                old(self)@.regs.write_view(RegView { gpr, width: Width::W64, high: false }, value),
            ),
            final(self)@.wf(),
    {
        self.regs.write(RegView { gpr, width: Width::W64, high: false }, value);
    }

    /// Reads the instruction pointer.
    pub fn read_rip(&self) -> (r: u64)
        ensures
            r == self@.regs.rip,
    {
        self.regs.rip()
    }

    /// Writes the instruction pointer. The host uses this to advance past
    /// each instruction before executing it.
    pub fn write_rip(&mut self, value: u64)
        requires
            old(self)@.wf(),
        ensures
            final(self)@ == old(self)@.with_regs(old(self)@.regs.write_rip(value)),
            final(self)@.wf(),
    {
        self.regs.set_rip(value);
    }

    /// Reads the packed status-flags word.
    pub fn read_flags(&self) -> (r: u64)
        ensures
            r == self@.rflags,
    {
        self.rflags
    }

    /// Overwrites the packed status-flags word.
    pub fn write_flags(&mut self, value: u64)
        requires
            old(self)@.wf(),
        ensures
            final(self)@ == old(self)@.with_rflags(value),
            final(self)@.wf(),
    {
        self.rflags = value;
    }

    /// Applies one flag update for a result at width `w`, per the set/clear
    /// contract of the flags engine.
    pub fn set_flags(&mut self, w: Width, flags_to_set: u64, flags_to_clear: u64, result: u64)
        requires
            old(self)@.wf(),
        ensures
            final(self)@ == old(self)@.with_rflags(
                spec_flags_after(old(self)@.rflags, flags_to_set, flags_to_clear, result, w),
            ),
            final(self)@.wf(),
    {
        self.rflags = crate::flags::flags_after(self.rflags, flags_to_set, flags_to_clear, result, w);
    }
}

} // verus!
