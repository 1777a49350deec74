//! The step operation.
//!
//! One instruction fully completes — operand resolution, reads, computation,
//! flag update, write-back — before the next begins. The host owns fetching
//! and decoding, and advances the instruction pointer past each instruction
//! before calling [`Axecutor::step`], so that RIP-relative operands and
//! not-taken branches see the address of the next instruction.

use vstd::prelude::*;

use crate::axecutor::AxV;
use crate::axecutor::Axecutor;
use crate::calculate::step_matches;
use crate::calculate::StepR;
use crate::cmp::spec_mnemonic_cmp;
use crate::errors::AxError;
use crate::je::spec_mnemonic_je;
use crate::operand::Instruction;
use crate::operand::Mnemonic;
use crate::xor::spec_mnemonic_xor;

verus! {

/// The spec-level outcome of executing one decoded instruction.
pub open spec fn spec_step(pre: AxV, i: Instruction) -> StepR {
    match i.code.mnemonic() {
        Mnemonic::Xor => spec_mnemonic_xor(pre, i),
        Mnemonic::Cmp => spec_mnemonic_cmp(pre, i),
        Mnemonic::Je => spec_mnemonic_je(pre, i),
    }
}

impl Axecutor {
    /// Executes one decoded instruction against the current state,
    /// dispatching to the handler of its mnemonic.
    pub fn step(&mut self, i: &Instruction) -> (r: Result<(), AxError>)
        requires
            old(self)@.wf(),
        ensures
            final(self)@.wf(),
            step_matches(old(self)@, final(self)@, r, spec_step(old(self)@, *i)),
    {
        match i.code.mnemonic_exec() {
            Mnemonic::Xor => self.mnemonic_xor(i),
            Mnemonic::Cmp => self.mnemonic_cmp(i),
            Mnemonic::Je => self.mnemonic_je(i),
        }
    }
}

} // verus!
