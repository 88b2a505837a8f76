//! The jump, branch and immediate instructions: J and JAL, the compare
//! branches, the REGIMM branches with their link variants, and the
//! immediate arithmetic and logic group up to LUI.

use vstd::prelude::*;

use crate::cpu::{branch_to_spec, cpu_set_register, cpu_wf, raise_exception_spec, reg_of, Cpu, CpuView};
use crate::exception::Exception;
use crate::instruction::{spec_imm, spec_rs, spec_rt, spec_target, Instruction, RegisterIndex};
use crate::words::{SextExt, ZextExt};

verus! {

/// The branch displacement of an instruction: its immediate, sign-extended
/// and scaled to words.
pub open spec fn branch_offset(word: u32) -> u32 {
    (spec_imm(word) as i16 as u32) << 2
}

/// The sign-extended immediate of an instruction.
pub open spec fn imm_sext(word: u32) -> u32 {
    spec_imm(word) as i16 as u32
}

/// The zero-extended immediate of an instruction.
pub open spec fn imm_zext(word: u32) -> u32 {
    spec_imm(word) as u32
}

/// The absolute target of a J-type jump: the 26-bit field scaled to words,
/// completed by the program counter's top four bits.
pub open spec fn jump_target(c: CpuView, word: u32) -> u32 {
    (spec_target(word) << 2) | (c.pc & 0xf0000000)
}

/// The CPU after J: the jump target becomes the pending branch.
pub open spec fn op_j_spec(c: CpuView, instruction: Instruction) -> CpuView {
    branch_to_spec(c, jump_target(c, instruction.0))
}

/// The CPU after JAL: as J, and the return address lands in register 31.
pub open spec fn op_jal_spec(c: CpuView, instruction: Instruction) -> CpuView {
    branch_to_spec(
        cpu_set_register(c, RegisterIndex(31), c.pc.wrapping_add(4)),
        jump_target(c, instruction.0),
    )
}

/// The CPU after BEQ: a pending branch by the displacement when the two
/// registers are equal.
pub open spec fn op_beq_spec(c: CpuView, instruction: Instruction) -> CpuView {
    if reg_of(c, spec_rs(instruction.0)) == reg_of(c, spec_rt(instruction.0)) {
        branch_to_spec(c, c.pc.wrapping_add(branch_offset(instruction.0)))
    } else {
        c
    }
}

/// The CPU after BNE: a pending branch when the two registers differ.
pub open spec fn op_bne_spec(c: CpuView, instruction: Instruction) -> CpuView {
    if reg_of(c, spec_rs(instruction.0)) != reg_of(c, spec_rt(instruction.0)) {
        branch_to_spec(c, c.pc.wrapping_add(branch_offset(instruction.0)))
    } else {
        c
    }
}

/// The CPU after BLEZ: a pending branch when the register is at most zero,
/// signed.
pub open spec fn op_blez_spec(c: CpuView, instruction: Instruction) -> CpuView {
    if reg_of(c, spec_rs(instruction.0)) as i32 <= 0 {
        branch_to_spec(c, c.pc.wrapping_add(branch_offset(instruction.0)))
    } else {
        c
    }
}

/// The CPU after BGTZ: a pending branch when the register is above zero,
/// signed.
pub open spec fn op_bgtz_spec(c: CpuView, instruction: Instruction) -> CpuView {
    if reg_of(c, spec_rs(instruction.0)) as i32 > 0 {
        branch_to_spec(c, c.pc.wrapping_add(branch_offset(instruction.0)))
    } else {
        c
    }
}

/// The CPU after BLTZ: a pending branch when the register is below zero,
/// signed.
pub open spec fn op_bltz_spec(c: CpuView, instruction: Instruction) -> CpuView {
    if (reg_of(c, spec_rs(instruction.0)) as i32) < 0 {
        branch_to_spec(c, c.pc.wrapping_add(branch_offset(instruction.0)))
    } else {
        c
    }
}

/// The CPU after BGEZ: a pending branch when the register is at least zero,
/// signed.
pub open spec fn op_bgez_spec(c: CpuView, instruction: Instruction) -> CpuView {
    if reg_of(c, spec_rs(instruction.0)) as i32 >= 0 {
        branch_to_spec(c, c.pc.wrapping_add(branch_offset(instruction.0)))
    } else {
        c
    }
}

/// The CPU after BLTZAL: the return address lands in register 31 whether or
/// not the branch is taken.
pub open spec fn op_bltzal_spec(c: CpuView, instruction: Instruction) -> CpuView {
    let linked = cpu_set_register(c, RegisterIndex(31), c.pc.wrapping_add(4));
    if (reg_of(c, spec_rs(instruction.0)) as i32) < 0 {
        branch_to_spec(linked, c.pc.wrapping_add(branch_offset(instruction.0)))
    } else {
        linked
    }
}

/// The CPU after BGEZAL: the return address lands in register 31 whether or
/// not the branch is taken.
pub open spec fn op_bgezal_spec(c: CpuView, instruction: Instruction) -> CpuView {
    let linked = cpu_set_register(c, RegisterIndex(31), c.pc.wrapping_add(4));
    if reg_of(c, spec_rs(instruction.0)) as i32 >= 0 {
        branch_to_spec(linked, c.pc.wrapping_add(branch_offset(instruction.0)))
    } else {
        linked
    }
}

/// The CPU after ADDI: the signed sum of the register and the sign-extended
/// immediate, or the overflow exception with the destination untouched.
pub open spec fn op_addi_spec(c: CpuView, instruction: Instruction) -> CpuView {
    let s = reg_of(c, spec_rs(instruction.0)) as i32;
    let value = imm_sext(instruction.0) as i32;
    match s.checked_add(value) {
        Some(result) => cpu_set_register(c, RegisterIndex(spec_rt(instruction.0)), result as u32),
        None => raise_exception_spec(c, instruction, Exception::Ov),
    }
}

/// The CPU after ADDIU: the wrapping sum of the register and the
/// sign-extended immediate.
pub open spec fn op_addiu_spec(c: CpuView, instruction: Instruction) -> CpuView {
    cpu_set_register(
        c,
        RegisterIndex(spec_rt(instruction.0)),
        reg_of(c, spec_rs(instruction.0)).wrapping_add(imm_sext(instruction.0)),
    )
}

/// The CPU after SLTI: one when the register is below the sign-extended
/// immediate as signed values, else zero.
pub open spec fn op_slti_spec(c: CpuView, instruction: Instruction) -> CpuView {
    let result: u32 = if (reg_of(c, spec_rs(instruction.0)) as i32) < imm_sext(instruction.0)
        as i32 {
        1
    } else {
        0
    };
    cpu_set_register(c, RegisterIndex(spec_rt(instruction.0)), result)
}

/// The CPU after SLTIU: one when the register is below the sign-extended
/// immediate as unsigned values, else zero.
pub open spec fn op_sltiu_spec(c: CpuView, instruction: Instruction) -> CpuView {
    let result: u32 = if reg_of(c, spec_rs(instruction.0)) < imm_sext(instruction.0) {
        1
    } else {
        0
    };
    cpu_set_register(c, RegisterIndex(spec_rt(instruction.0)), result)
}

/// The CPU after ANDI: the register masked by the zero-extended immediate.
pub open spec fn op_andi_spec(c: CpuView, instruction: Instruction) -> CpuView {
    cpu_set_register(
        c,
        RegisterIndex(spec_rt(instruction.0)),
        reg_of(c, spec_rs(instruction.0)) & imm_zext(instruction.0),
    )
}

/// The CPU after ORI: the register joined with the zero-extended immediate.
pub open spec fn op_ori_spec(c: CpuView, instruction: Instruction) -> CpuView {
    cpu_set_register(
        c,
        RegisterIndex(spec_rt(instruction.0)),
        reg_of(c, spec_rs(instruction.0)) | imm_zext(instruction.0),
    )
}

/// The CPU after XORI: the register crossed with the zero-extended
/// immediate.
pub open spec fn op_xori_spec(c: CpuView, instruction: Instruction) -> CpuView {
    cpu_set_register(
        c,
        RegisterIndex(spec_rt(instruction.0)),
        reg_of(c, spec_rs(instruction.0)) ^ imm_zext(instruction.0),
    )
}

/// The CPU after LUI: the zero-extended immediate shifted into the upper
/// half-word.
pub open spec fn op_lui_spec(c: CpuView, instruction: Instruction) -> CpuView {
    cpu_set_register(c, RegisterIndex(spec_rt(instruction.0)), imm_zext(instruction.0) << 16)
}

impl Cpu {
    /// Opcode J: jump within the current 256 MiB segment.
    pub fn op_j(&mut self, instruction: Instruction)
        requires
            cpu_wf(old(self)@),
        ensures
            cpu_wf(final(self)@),
            final(self)@ == op_j_spec(old(self)@, instruction),
    {
        let target = instruction.target();
        let address = (target << 2) | (self.pc & 0xf0000000);
        self.branch_delay_pc = Some(address);
    }

    /// Opcode JAL: jump and leave the return address in register 31.
    pub fn op_jal(&mut self, instruction: Instruction)
        requires
            cpu_wf(old(self)@),
        ensures
            cpu_wf(final(self)@),
            final(self)@ == op_jal_spec(old(self)@, instruction),
    {
        let target = instruction.target();
        let address = (target << 2) | (self.pc & 0xf0000000);
        self.set_register(RegisterIndex(31), self.pc.wrapping_add(4));
        self.branch_delay_pc = Some(address);
    }

    /// Opcode BEQ: branch when the two registers are equal.
    pub fn op_beq(&mut self, instruction: Instruction)
        requires
            cpu_wf(old(self)@),
        ensures
            cpu_wf(final(self)@),
            final(self)@ == op_beq_spec(old(self)@, instruction),
    {
        let s = self.register(instruction.rs());
        let t = self.register(instruction.rt());
        let address_offset = instruction.imm().sign_extend() << 2;
        if s == t {
            self.branch(address_offset);
        }
    }

    /// Opcode BNE: branch when the two registers differ.
    pub fn op_bne(&mut self, instruction: Instruction)
        requires
            cpu_wf(old(self)@),
        ensures
            cpu_wf(final(self)@),
            final(self)@ == op_bne_spec(old(self)@, instruction),
    {
        let s = self.register(instruction.rs());
        let t = self.register(instruction.rt());
        let address_offset = instruction.imm().sign_extend() << 2;
        if s != t {
            self.branch(address_offset);
        }
    }

    /// Opcode BLEZ: branch when the register is at most zero, signed.
    pub fn op_blez(&mut self, instruction: Instruction)
        requires
            cpu_wf(old(self)@),
        ensures
            cpu_wf(final(self)@),
            final(self)@ == op_blez_spec(old(self)@, instruction),
    {
        let s = self.register(instruction.rs()) as i32;
        let address_offset = instruction.imm().sign_extend() << 2;
        if s <= 0 {
            self.branch(address_offset);
        }
    }

    /// Opcode BGTZ: branch when the register is above zero, signed.
    pub fn op_bgtz(&mut self, instruction: Instruction)
        requires
            cpu_wf(old(self)@),
        ensures
            cpu_wf(final(self)@),
            final(self)@ == op_bgtz_spec(old(self)@, instruction),
    {
        let s = self.register(instruction.rs()) as i32;
        let address_offset = instruction.imm().sign_extend() << 2;
        if s > 0 {
            self.branch(address_offset);
        }
    }

    /// Opcode BLTZ: branch when the register is below zero, signed.
    pub fn op_bltz(&mut self, instruction: Instruction)
        requires
            cpu_wf(old(self)@),
        ensures
            cpu_wf(final(self)@),
            final(self)@ == op_bltz_spec(old(self)@, instruction),
    {
        let s = self.register(instruction.rs()) as i32;
        let address_offset = instruction.imm().sign_extend() << 2;
        if s < 0 {
            self.branch(address_offset);
        }
    }

    /// Opcode BGEZ: branch when the register is at least zero, signed.
    pub fn op_bgez(&mut self, instruction: Instruction)
        requires
            cpu_wf(old(self)@),
        ensures
            cpu_wf(final(self)@),
            final(self)@ == op_bgez_spec(old(self)@, instruction),
    {
        let s = self.register(instruction.rs()) as i32;
        let address_offset = instruction.imm().sign_extend() << 2;
        if s >= 0 {
            self.branch(address_offset);
        }
    }

    /// Opcode BLTZAL: as BLTZ, and the return address always lands in
    /// register 31.
    pub fn op_bltzal(&mut self, instruction: Instruction)
        requires
            cpu_wf(old(self)@),
        ensures
            cpu_wf(final(self)@),
            final(self)@ == op_bltzal_spec(old(self)@, instruction),
    {
        let s = self.register(instruction.rs()) as i32;
        let address_offset = instruction.imm().sign_extend() << 2;
        self.set_register(RegisterIndex(31), self.pc.wrapping_add(4));
        if s < 0 {
            self.branch(address_offset);
        }
    }

    /// Opcode BGEZAL: as BGEZ, and the return address always lands in
    /// register 31.
    pub fn op_bgezal(&mut self, instruction: Instruction)
        requires
            cpu_wf(old(self)@),
        ensures
            cpu_wf(final(self)@),
            final(self)@ == op_bgezal_spec(old(self)@, instruction),
    {
        let s = self.register(instruction.rs()) as i32;
        let address_offset = instruction.imm().sign_extend() << 2;
        self.set_register(RegisterIndex(31), self.pc.wrapping_add(4));
        if s >= 0 {
            self.branch(address_offset);
        }
    }

    /// Opcode ADDI: add the sign-extended immediate; a signed overflow
    /// raises the overflow exception and leaves the destination untouched.
    pub fn op_addi(&mut self, instruction: Instruction)
        requires
            cpu_wf(old(self)@),
        ensures
            cpu_wf(final(self)@),
            final(self)@ == op_addi_spec(old(self)@, instruction),
    {
        let s = self.register(instruction.rs()) as i32;
        let value = instruction.imm().sign_extend() as i32;
        match s.checked_add(value) {
            Some(result) => self.set_register(instruction.rt(), result as u32),
            None => self.raise_exception(instruction, Exception::Ov),
        }
    }

    /// Opcode ADDIU: add the sign-extended immediate, wrapping.
    pub fn op_addiu(&mut self, instruction: Instruction)
        requires
            cpu_wf(old(self)@),
        ensures
            cpu_wf(final(self)@),
            final(self)@ == op_addiu_spec(old(self)@, instruction),
    {
        let s = self.register(instruction.rs());
        let value = instruction.imm().sign_extend();
        self.set_register(instruction.rt(), s.wrapping_add(value));
    }

    /// Opcode SLTI: set on less than the sign-extended immediate, signed.
    pub fn op_slti(&mut self, instruction: Instruction)
        requires
            cpu_wf(old(self)@),
        ensures
            cpu_wf(final(self)@),
            final(self)@ == op_slti_spec(old(self)@, instruction),
    {
        let s = self.register(instruction.rs()) as i32;
        let value = instruction.imm().sign_extend() as i32;
        let result: u32 = if s < value {
            1
        } else {
            0
        };
        self.set_register(instruction.rt(), result);
    }

    /// Opcode SLTIU: set on less than the sign-extended immediate, unsigned.
    pub fn op_sltiu(&mut self, instruction: Instruction)
        requires
            cpu_wf(old(self)@),
        ensures
            cpu_wf(final(self)@),
            final(self)@ == op_sltiu_spec(old(self)@, instruction),
    {
        let s = self.register(instruction.rs());
        let value = instruction.imm().sign_extend();
        let result: u32 = if s < value {
            1
        } else {
            0
        };
        self.set_register(instruction.rt(), result);
    }

    /// Opcode ANDI: mask with the zero-extended immediate.
    pub fn op_andi(&mut self, instruction: Instruction)
        requires
            cpu_wf(old(self)@),
        ensures
            cpu_wf(final(self)@),
            final(self)@ == op_andi_spec(old(self)@, instruction),
    {
        let s = self.register(instruction.rs());
        let value = instruction.imm().zero_extend();
        self.set_register(instruction.rt(), s & value);
    }

    /// Opcode ORI: join with the zero-extended immediate.
    pub fn op_ori(&mut self, instruction: Instruction)
        requires
            cpu_wf(old(self)@),
        ensures
            cpu_wf(final(self)@),
            final(self)@ == op_ori_spec(old(self)@, instruction),
    {
        let s = self.register(instruction.rs());
        let value = instruction.imm().zero_extend();
        self.set_register(instruction.rt(), s | value);
    }

    /// Opcode XORI: cross with the zero-extended immediate.
    pub fn op_xori(&mut self, instruction: Instruction)
        requires
            cpu_wf(old(self)@),
        ensures
            cpu_wf(final(self)@),
            final(self)@ == op_xori_spec(old(self)@, instruction),
    {
        let s = self.register(instruction.rs());
        let value = instruction.imm().zero_extend();
        self.set_register(instruction.rt(), s ^ value);
    }

    /// Opcode LUI: load the immediate into the upper half-word.
    pub fn op_lui(&mut self, instruction: Instruction)
        requires
            cpu_wf(old(self)@),
        ensures
            cpu_wf(final(self)@),
            final(self)@ == op_lui_spec(old(self)@, instruction),
    {
        let value = instruction.imm().zero_extend();
        self.set_register(instruction.rt(), value << 16);
    }
}

} // verus!
