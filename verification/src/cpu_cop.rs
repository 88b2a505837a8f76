//! The coprocessor-0 moves and the exception return, and the coprocessor-2
//! word transfers that this core does not implement.

use vstd::prelude::*;

use crate::abort::Abort;
use crate::cpu::{cpu_set_register, cpu_wf, reg_of, Cpu, CpuView};
use crate::instruction::{spec_cop_rd, spec_rt, CopRegisterIndex, Instruction, RegisterIndex};

verus! {

/// The CPU after MFC0: the coprocessor word lands in the general register.
pub open spec fn op_mfc0_spec(c: CpuView, instruction: Instruction) -> CpuView
    recommends
        c.cop0.len() == 64,
{
    cpu_set_register(
        c,
        RegisterIndex(spec_rt(instruction.0)),
        c.cop0[spec_cop_rd(instruction.0) as int],
    )
}

/// The CPU after MTC0: the general register lands in the coprocessor word.
pub open spec fn op_mtc0_spec(c: CpuView, instruction: Instruction) -> CpuView
    recommends
        c.cop0.len() == 64,
{
    CpuView {
        cop0: c.cop0.update(
            spec_cop_rd(instruction.0) as int,
            reg_of(c, spec_rt(instruction.0)),
        ),
        ..c
    }
}

/// The CPU after RFE: the status register's low six-bit mode stack pops,
/// shifting right by two without touching the higher bits.
pub open spec fn op_rfe_spec(c: CpuView, instruction: Instruction) -> CpuView
    recommends
        c.cop0.len() == 64,
{
    let sr = c.cop0[12];
    CpuView { cop0: c.cop0.update(12, (sr & !0x3fu32) | ((sr & 0x3f) >> 2)), ..c }
}

impl Cpu {
    /// Opcode MFC0: move from a coprocessor-0 register.
    pub fn op_mfc0(&mut self, instruction: Instruction)
        requires
            cpu_wf(old(self)@),
        ensures
            cpu_wf(final(self)@),
            final(self)@ == op_mfc0_spec(old(self)@, instruction),
    {
        let rt = instruction.rt();
        let rd = instruction.cop_rd();
        let d = self.cop0_register(rd);
        self.set_register(rt, d);
    }

    /// Opcode MTC0: move to a coprocessor-0 register.
    pub fn op_mtc0(&mut self, instruction: Instruction)
        requires
            cpu_wf(old(self)@),
        ensures
            cpu_wf(final(self)@),
            final(self)@ == op_mtc0_spec(old(self)@, instruction),
    {
        let rt = instruction.rt();
        let rd = instruction.cop_rd();
        let t = self.register(rt);
        self.set_cop0_register(rd, t);
    }

    /// Opcode RFE: restore from exception by popping the status register's
    /// mode stack.
    pub fn op_rfe(&mut self, instruction: Instruction)
        requires
            cpu_wf(old(self)@),
        ensures
            cpu_wf(final(self)@),
            final(self)@ == op_rfe_spec(old(self)@, instruction),
    {
        let mut sr = self.cop0_register(CopRegisterIndex(12));
        let mode = sr & 0x3f;
        sr = sr & !0x3fu32;
        sr = sr | (mode >> 2);
        self.set_cop0_register(CopRegisterIndex(12), sr);
    }

    /// Opcode LWC2: a word load into the geometry coprocessor, which this
    /// core does not implement.
    pub fn op_lwc2(&mut self, instruction: Instruction) -> (r: Result<(), Abort>)
        ensures
            *final(self) == *old(self),
            r == Err::<(), Abort>(
                Abort::UnimplementedInstruction { word: instruction.0, pc: instruction.1 },
            ),
    {
        Err(Abort::UnimplementedInstruction { word: instruction.0, pc: instruction.1 })
    }

    /// Opcode SWC2: a word store from the geometry coprocessor, which this
    /// core does not implement.
    pub fn op_swc2(&mut self, instruction: Instruction) -> (r: Result<(), Abort>)
        ensures
            *final(self) == *old(self),
            r == Err::<(), Abort>(
                Abort::UnimplementedInstruction { word: instruction.0, pc: instruction.1 },
            ),
    {
        Err(Abort::UnimplementedInstruction { word: instruction.0, pc: instruction.1 })
    }
}

} // verus!
