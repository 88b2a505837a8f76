//! The MIPS R3000A execution core: the register file with its shadow copy,
//! HI and LO, the coprocessor-0 words, the program counter with the pending
//! branch and pending load slots, and the fetch-decode-execute step.

use vstd::prelude::*;

use crate::abort::{matches_abort, Abort};
use crate::bus::{bus_read32_spec, bus_wf, Bus, BusView};
use crate::exception::{exception_code, Exception};
use crate::instruction::{spec_branch_op, spec_cop_op, spec_funct, spec_op, CopRegisterIndex, Instruction, RegisterIndex};
use crate::cpu_ops::{op_addi_spec, op_addiu_spec, op_andi_spec, op_beq_spec, op_bgez_spec, op_bgezal_spec, op_bgtz_spec, op_blez_spec, op_bltz_spec, op_bltzal_spec, op_bne_spec, op_j_spec, op_jal_spec, op_lui_spec, op_ori_spec, op_slti_spec, op_sltiu_spec, op_xori_spec};
use crate::cpu_special::{op_add_spec, op_addu_spec, op_and_spec, op_break_spec, op_div_spec, op_divu_spec, op_jalr_spec, op_jr_spec, op_mfhi_spec, op_mflo_spec, op_mthi_spec, op_mtlo_spec, op_mult_spec, op_multu_spec, op_nor_spec, op_or_spec, op_sll_spec, op_sllv_spec, op_slt_spec, op_sltu_spec, op_sra_spec, op_srav_spec, op_srl_spec, op_srlv_spec, op_sub_spec, op_subu_spec, op_syscall_spec, op_xor_spec};
use crate::cpu_cop::{op_mfc0_spec, op_mtc0_spec, op_rfe_spec};
use crate::cpu_mem::{op_lb_spec, op_lbu_spec, op_lh_spec, op_lhu_spec, op_lw_spec, op_lwl_spec, op_lwr_spec, op_sb_spec, op_sh_spec, op_sw_spec, op_swl_spec, op_swr_spec};

verus! {

/// The program counter at power-on: the start of the BIOS in KSEG1.
pub const BOOT_PC: u32 = 0xbfc00000;

/// The mathematical view of the CPU and the bus it owns.
pub struct CpuView {
    /// The visible general registers.
    pub registers: Seq<u32>,
    /// The shadow registers that the current instruction writes.
    pub out_registers: Seq<u32>,
    /// The pending load: a register and the value it receives one
    /// instruction later.
    pub load_delay: Option<(RegisterIndex, u32)>,
    /// The HI register of multiply and divide.
    pub hi: u32,
    /// The LO register of multiply and divide.
    pub lo: u32,
    /// The coprocessor-0 words.
    pub cop0: Seq<u32>,
    /// The program counter.
    pub pc: u32,
    /// The pending branch target, taken one instruction later.
    pub branch_delay: Option<u32>,
    /// The bus and everything behind it.
    pub bus: BusView,
}

/// The CPU component.
#[derive(Debug)]
pub struct Cpu {
    /// The visible general registers.
    pub registers: Vec<u32>,
    /// The shadow registers that the current instruction writes.
    pub out_registers: Vec<u32>,
    /// The pending load register and value.
    pub load_delay_register: Option<(RegisterIndex, u32)>,
    /// The HI register of multiply and divide.
    pub hi: u32,
    /// The LO register of multiply and divide.
    pub lo: u32,
    /// The coprocessor-0 words.
    pub cop0_registers: Vec<u32>,
    /// The program counter.
    pub pc: u32,
    /// The pending branch target.
    pub branch_delay_pc: Option<u32>,
    /// The bus.
    pub bus: Bus,
}

impl View for Cpu {
    type V = CpuView;

    open spec fn view(&self) -> CpuView {
        CpuView {
            registers: self.registers@,
            out_registers: self.out_registers@,
            load_delay: self.load_delay_register,
            hi: self.hi,
            lo: self.lo,
            cop0: self.cop0_registers@,
            pc: self.pc,
            branch_delay: self.branch_delay_pc,
            bus: self.bus@,
        }
    }
}

/// The register files have their fixed sizes, register zero reads as zero in
/// both, and the bus is sound.
pub open spec fn cpu_wf(c: CpuView) -> bool {
    c.registers.len() == 32 && c.out_registers.len() == 32 && c.cop0.len() == 64 && c.registers[0]
        == 0 && c.out_registers[0] == 0 && (match c.load_delay {
        Some((r, v)) => r.0 < 32,
        None => true,
    }) && bus_wf(c.bus)
}

/// A register file after a write: register zero absorbs the write, any
/// other register takes the value.
pub open spec fn set_reg(regs: Seq<u32>, index: u8, value: u32) -> Seq<u32> {
    if index == 0 {
        regs
    } else {
        regs.update(index as int, value)
    }
}

/// The CPU after a write of `value` to a general register: the write lands
/// in the shadow file.
pub open spec fn cpu_set_register(c: CpuView, register: RegisterIndex, value: u32) -> CpuView {
    CpuView { out_registers: set_reg(c.out_registers, register.0, value), ..c }
}

/// The value a general register reads as, from the visible file.
pub open spec fn reg_of(c: CpuView, index: u8) -> u32 {
    c.registers[index as int]
}

/// Whether the cache is isolated: bit 16 of the status register. While it
/// holds, CPU loads and stores do not touch the bus.
pub open spec fn cache_isolated(c: CpuView) -> bool {
    c.cop0[12] & 0x10000 != 0
}

/// The CPU with a pending branch to the given absolute address.
pub open spec fn branch_to_spec(c: CpuView, address: u32) -> CpuView {
    CpuView { branch_delay: Some(address), ..c }
}

/// The CPU after an exception is raised while executing `instruction`:
/// CAUSE takes the exception code and, when the instruction sat in a branch
/// delay slot, the branch-delay bit; EPC takes the instruction's address,
/// stepped back over a delay slot; the status register pushes its mode
/// stack left; and the program counter jumps to the handler that the BEV
/// bit picks.
pub open spec fn raise_exception_spec(c: CpuView, instruction: Instruction, e: Exception) -> CpuView
    recommends
        c.cop0.len() == 64,
{
    let bd = instruction.1 != c.pc.wrapping_sub(4);
    let epc = if bd {
        instruction.1.wrapping_sub(4)
    } else {
        instruction.1
    };
    let cause0 = c.cop0[13];
    let cause = (cause0 & !(0x1fu32 << 2) & !(1u32 << 31)) | (exception_code(e) << 2) | (
    if bd {
        1u32 << 31
    } else {
        0u32
    });
    let sr0 = c.cop0[12];
    let sr = (sr0 & !0x3fu32) | (((sr0 & 0x3f) << 2) & 0x3f);
    let handler: u32 = if sr0 & (1u32 << 22) != 0 {
        0xbfc00180
    } else {
        0x80000080
    };
    CpuView {
        cop0: c.cop0.update(14, epc).update(13, cause).update(12, sr),
        pc: handler,
        ..c
    }
}

/// The CPU between fetch and execute: the program counter advances one
/// instruction, a pending branch target replaces it, and a pending load
/// lands in the shadow registers. Both one-slot buffers drain.
pub open spec fn pre_execute_spec(c: CpuView) -> CpuView {
    let advanced = c.pc.wrapping_add(4);
    let pc = match c.branch_delay {
        Some(target) => target,
        None => advanced,
    };
    let out = match c.load_delay {
        Some((r, v)) => set_reg(c.out_registers, r.0, v),
        None => c.out_registers,
    };
    CpuView { pc, branch_delay: None, load_delay: None, out_registers: out, ..c }
}

/// The CPU at the end of a step: the shadow register file becomes visible.
pub open spec fn promote_spec(c: CpuView) -> CpuView {
    CpuView { registers: c.out_registers, ..c }
}

/// The dispatch of one decoded instruction against the CPU as it stands
/// between fetch and promotion. Coprocessor 1, 2 and 3 operations raise the
/// coprocessor-unusable exception, an unknown primary opcode raises the
/// reserved-instruction exception, and an unknown secondary opcode is
/// unresolvable.
#[verifier::opaque]
pub open spec fn execute_spec(c: CpuView, instruction: Instruction) -> (CpuView, Option<Abort>) {
    let word = instruction.0;
    let op = spec_op(word);
    let unimplemented = Abort::UnimplementedInstruction { word, pc: instruction.1 };
    if op == 0x00 {
        let funct = spec_funct(word);
        if funct == 0x00 {
            (op_sll_spec(c, instruction), None)
        } else if funct == 0x02 {
            (op_srl_spec(c, instruction), None)
        } else if funct == 0x03 {
            (op_sra_spec(c, instruction), None)
        } else if funct == 0x04 {
            (op_sllv_spec(c, instruction), None)
        } else if funct == 0x06 {
            (op_srlv_spec(c, instruction), None)
        } else if funct == 0x07 {
            (op_srav_spec(c, instruction), None)
        } else if funct == 0x08 {
            (op_jr_spec(c, instruction), None)
        } else if funct == 0x09 {
            (op_jalr_spec(c, instruction), None)
        } else if funct == 0x0c {
            (op_syscall_spec(c, instruction), None)
        } else if funct == 0x0d {
            (op_break_spec(c, instruction), None)
        } else if funct == 0x10 {
            (op_mfhi_spec(c, instruction), None)
        } else if funct == 0x11 {
            (op_mthi_spec(c, instruction), None)
        } else if funct == 0x12 {
            (op_mflo_spec(c, instruction), None)
        } else if funct == 0x13 {
            (op_mtlo_spec(c, instruction), None)
        } else if funct == 0x18 {
            (op_mult_spec(c, instruction), None)
        } else if funct == 0x19 {
            (op_multu_spec(c, instruction), None)
        } else if funct == 0x1a {
            (op_div_spec(c, instruction), None)
        } else if funct == 0x1b {
            (op_divu_spec(c, instruction), None)
        } else if funct == 0x20 {
            (op_add_spec(c, instruction), None)
        } else if funct == 0x21 {
            (op_addu_spec(c, instruction), None)
        } else if funct == 0x22 {
            (op_sub_spec(c, instruction), None)
        } else if funct == 0x23 {
            (op_subu_spec(c, instruction), None)
        } else if funct == 0x24 {
            (op_and_spec(c, instruction), None)
        } else if funct == 0x25 {
            (op_or_spec(c, instruction), None)
        } else if funct == 0x26 {
            (op_xor_spec(c, instruction), None)
        } else if funct == 0x27 {
            (op_nor_spec(c, instruction), None)
        } else if funct == 0x2a {
            (op_slt_spec(c, instruction), None)
        } else if funct == 0x2b {
            (op_sltu_spec(c, instruction), None)
        } else {
            (c, Some(unimplemented))
        }
    } else if op == 0x01 {
        let branch_op = spec_branch_op(word);
        if branch_op == 0x00 {
            (op_bltz_spec(c, instruction), None)
        } else if branch_op == 0x01 {
            (op_bgez_spec(c, instruction), None)
        } else if branch_op == 0x10 {
            (op_bltzal_spec(c, instruction), None)
        } else if branch_op == 0x11 {
            (op_bgezal_spec(c, instruction), None)
        } else {
            (c, Some(unimplemented))
        }
    } else if op == 0x02 {
        (op_j_spec(c, instruction), None)
    } else if op == 0x03 {
        (op_jal_spec(c, instruction), None)
    } else if op == 0x04 {
        (op_beq_spec(c, instruction), None)
    } else if op == 0x05 {
        (op_bne_spec(c, instruction), None)
    } else if op == 0x06 {
        (op_blez_spec(c, instruction), None)
    } else if op == 0x07 {
        (op_bgtz_spec(c, instruction), None)
    } else if op == 0x08 {
        (op_addi_spec(c, instruction), None)
    } else if op == 0x09 {
        (op_addiu_spec(c, instruction), None)
    } else if op == 0x0a {
        (op_slti_spec(c, instruction), None)
    } else if op == 0x0b {
        (op_sltiu_spec(c, instruction), None)
    } else if op == 0x0c {
        (op_andi_spec(c, instruction), None)
    } else if op == 0x0d {
        (op_ori_spec(c, instruction), None)
    } else if op == 0x0e {
        (op_xori_spec(c, instruction), None)
    } else if op == 0x0f {
        (op_lui_spec(c, instruction), None)
    } else if op == 0x10 {
        let cop_op = spec_cop_op(word);
        if cop_op == 0x00 {
            (op_mfc0_spec(c, instruction), None)
        } else if cop_op == 0x04 {
            (op_mtc0_spec(c, instruction), None)
        } else if cop_op == 0x10 {
            if spec_funct(word) == 0x10 {
                (op_rfe_spec(c, instruction), None)
            } else {
                (c, Some(unimplemented))
            }
        } else {
            (c, Some(unimplemented))
        }
    } else if op == 0x11 || op == 0x12 || op == 0x13 {
        (raise_exception_spec(c, instruction, Exception::Cpu), None)
    } else if op == 0x20 {
        op_lb_spec(c, instruction)
    } else if op == 0x21 {
        op_lh_spec(c, instruction)
    } else if op == 0x22 {
        op_lwl_spec(c, instruction)
    } else if op == 0x23 {
        op_lw_spec(c, instruction)
    } else if op == 0x24 {
        op_lbu_spec(c, instruction)
    } else if op == 0x25 {
        op_lhu_spec(c, instruction)
    } else if op == 0x26 {
        op_lwr_spec(c, instruction)
    } else if op == 0x28 {
        op_sb_spec(c, instruction)
    } else if op == 0x29 {
        op_sh_spec(c, instruction)
    } else if op == 0x2a {
        op_swl_spec(c, instruction)
    } else if op == 0x2b {
        op_sw_spec(c, instruction)
    } else if op == 0x2e {
        op_swr_spec(c, instruction)
    } else if op == 0x30 || op == 0x31 || op == 0x33 || op == 0x38 || op == 0x39 || op == 0x3b {
        (raise_exception_spec(c, instruction, Exception::Cpu), None)
    } else if op == 0x32 || op == 0x3a {
        (c, Some(unimplemented))
    } else {
        (raise_exception_spec(c, instruction, Exception::Ri), None)
    }
}

/// One whole step of the CPU: the program counter must be aligned, the
/// instruction is fetched at it, the pending branch and load drain, the
/// instruction executes, and the shadow registers become visible. An abort
/// anywhere stops the step where it stands.
#[verifier::opaque]
pub open spec fn step_spec(c: CpuView) -> (CpuView, Option<Abort>) {
    if c.pc % 4 != 0 {
        (c, Some(Abort::UnalignedProgramCounter { pc: c.pc }))
    } else {
        match bus_read32_spec(c.bus, c.pc) {
            Err(a) => (c, Some(a)),
            Ok(word) => {
                let instruction = Instruction(word, c.pc);
                let c1 = pre_execute_spec(c);
                let (c2, abort) = execute_spec(c1, instruction);
                match abort {
                    Some(a) => (c2, Some(a)),
                    None => (promote_spec(c2), None),
                }
            },
        }
    }
}

impl Cpu {
    /// Creates the CPU around the bus it owns, with every register zero and
    /// the program counter at the boot address.
    pub fn new(bus: Bus) -> (r: Cpu)
        requires
            bus_wf(bus@),
        ensures
            cpu_wf(r@),
            r@.registers == Seq::<u32>::new(32, |i: int| 0u32),
            r@.out_registers == Seq::<u32>::new(32, |i: int| 0u32),
            r@.cop0 == Seq::<u32>::new(64, |i: int| 0u32),
            r@.hi == 0,
            r@.lo == 0,
            r@.pc == BOOT_PC,
            r@.load_delay is None,
            r@.branch_delay is None,
            r@.bus == bus@,
    {
        let registers = zeroed_words(32);
        let out_registers = zeroed_words(32);
        let cop0_registers = zeroed_words(64);
        Cpu {
            registers,
            out_registers,
            load_delay_register: None,
            hi: 0,
            lo: 0,
            cop0_registers,
            pc: BOOT_PC,
            branch_delay_pc: None,
            bus,
        }
    }

    /// Gets a value from a general register of the visible file.
    pub fn register(&self, register: RegisterIndex) -> (r: u32)
        requires
            register.0 < 32,
            self@.registers.len() == 32,
        ensures
            r == reg_of(self@, register.0),
    {
        self.registers[register.0 as usize]
    }

    /// Sets a general register of the shadow file. Register zero absorbs
    /// the write.
    pub fn set_register(&mut self, register: RegisterIndex, value: u32)
        requires
            register.0 < 32,
            old(self)@.out_registers.len() == 32,
        ensures
            final(self)@ == cpu_set_register(old(self)@, register, value),
    {
        if register.0 != 0 {
            self.out_registers.set(register.0 as usize, value);
        }
    }

    /// Gets a value from a coprocessor-0 register.
    pub fn cop0_register(&self, register: CopRegisterIndex) -> (r: u32)
        requires
            register.0 < 64,
            self@.cop0.len() == 64,
        ensures
            r == self@.cop0[register.0 as int],
    {
        self.cop0_registers[register.0 as usize]
    }

    /// Sets a coprocessor-0 register.
    pub fn set_cop0_register(&mut self, register: CopRegisterIndex, value: u32)
        requires
            register.0 < 64,
            old(self)@.cop0.len() == 64,
        ensures
            (final(self)@ == CpuView {
                cop0: old(self)@.cop0.update(register.0 as int, value),
                ..old(self)@
            }),
    {
        self.cop0_registers.set(register.0 as usize, value);
    }

    /// Sets the pending branch to an address relative to the program
    /// counter.
    pub fn branch(&mut self, offset: u32)
        ensures
            final(self)@ == branch_to_spec(old(self)@, old(self).pc.wrapping_add(offset)),
    {
        let address = self.pc.wrapping_add(offset);
        self.branch_delay_pc = Some(address);
    }

    /// Raises an exception for the given instruction: CAUSE and EPC record
    /// it, the status register pushes its mode stack, and the program
    /// counter jumps to the handler.
    pub fn raise_exception(&mut self, instruction: Instruction, exception: Exception)
        requires
            old(self)@.cop0.len() == 64,
        ensures
            final(self)@ == raise_exception_spec(old(self)@, instruction, exception),
    {
        let bd = instruction.1 != self.pc.wrapping_sub(4);

        let pc = if bd {
            instruction.1.wrapping_sub(4)
        } else {
            instruction.1
        };
        self.set_cop0_register(CopRegisterIndex(14), pc);

        let mut cause = self.cop0_register(CopRegisterIndex(13));
        cause = (cause & !(0x1fu32 << 2) & !(1u32 << 31)) | (exception.code() << 2) | (
        if bd {
            1u32 << 31
        } else {
            0u32
        });
        self.set_cop0_register(CopRegisterIndex(13), cause);

        let sr0 = self.cop0_register(CopRegisterIndex(12));
        let bev = (sr0 & (1u32 << 22)) != 0;
        let sr = (sr0 & !0x3fu32) | (((sr0 & 0x3f) << 2) & 0x3f);
        self.set_cop0_register(CopRegisterIndex(12), sr);

        let handler: u32 = if bev {
            0xbfc00180
        } else {
            0x80000080
        };
        self.pc = handler;
    }

    /// Returns the bus, for the embedder to reach memory and devices.
    pub fn bus(&mut self) -> (r: &mut Bus)
        ensures
            *r == old(self).bus,
            (final(self)@ == CpuView { bus: final(r)@, ..old(self)@ }),
    {
        &mut self.bus
    }

    /// Executes one decoded instruction. Coprocessor 1, 2 and 3 operations
    /// raise the coprocessor-unusable exception, an unknown primary opcode
    /// raises the reserved-instruction exception, and an unknown secondary
    /// opcode is unresolvable.
    #[verifier::rlimit(100)]
    #[verifier::spinoff_prover]
    pub fn execute(&mut self, instruction: Instruction) -> (r: Result<(), Abort>)
        requires
            cpu_wf(old(self)@),
        ensures
            cpu_wf(final(self)@),
            final(self)@ == execute_spec(old(self)@, instruction).0,
            matches_abort(r, execute_spec(old(self)@, instruction).1),
    {
        proof {
            reveal(execute_spec);
        }
        let unimplemented = Abort::UnimplementedInstruction {
            word: instruction.0,
            pc: instruction.1,
        };
        match instruction.op() {
            0x00 => match instruction.funct() {
                0x00 => {
                    self.op_sll(instruction);
                    Ok(())
                },
                0x02 => {
                    self.op_srl(instruction);
                    Ok(())
                },
                0x03 => {
                    self.op_sra(instruction);
                    Ok(())
                },
                0x04 => {
                    self.op_sllv(instruction);
                    Ok(())
                },
                0x06 => {
                    self.op_srlv(instruction);
                    Ok(())
                },
                0x07 => {
                    self.op_srav(instruction);
                    Ok(())
                },
                0x08 => {
                    self.op_jr(instruction);
                    Ok(())
                },
                0x09 => {
                    self.op_jalr(instruction);
                    Ok(())
                },
                0x0c => {
                    self.op_syscall(instruction);
                    Ok(())
                },
                0x0d => {
                    self.op_break(instruction);
                    Ok(())
                },
                0x10 => {
                    self.op_mfhi(instruction);
                    Ok(())
                },
                0x11 => {
                    self.op_mthi(instruction);
                    Ok(())
                },
                0x12 => {
                    self.op_mflo(instruction);
                    Ok(())
                },
                0x13 => {
                    self.op_mtlo(instruction);
                    Ok(())
                },
                0x18 => {
                    self.op_mult(instruction);
                    Ok(())
                },
                0x19 => {
                    self.op_multu(instruction);
                    Ok(())
                },
                0x1a => {
                    self.op_div(instruction);
                    Ok(())
                },
                0x1b => {
                    self.op_divu(instruction);
                    Ok(())
                },
                0x20 => {
                    self.op_add(instruction);
                    Ok(())
                },
                0x21 => {
                    self.op_addu(instruction);
                    Ok(())
                },
                0x22 => {
                    self.op_sub(instruction);
                    Ok(())
                },
                0x23 => {
                    self.op_subu(instruction);
                    Ok(())
                },
                0x24 => {
                    self.op_and(instruction);
                    Ok(())
                },
                0x25 => {
                    self.op_or(instruction);
                    Ok(())
                },
                0x26 => {
                    self.op_xor(instruction);
                    Ok(())
                },
                0x27 => {
                    self.op_nor(instruction);
                    Ok(())
                },
                0x2a => {
                    self.op_slt(instruction);
                    Ok(())
                },
                0x2b => {
                    self.op_sltu(instruction);
                    Ok(())
                },
                _ => Err(unimplemented),
            },
            0x01 => match instruction.branch_op() {
                0x00 => {
                    self.op_bltz(instruction);
                    Ok(())
                },
                0x01 => {
                    self.op_bgez(instruction);
                    Ok(())
                },
                0x10 => {
                    self.op_bltzal(instruction);
                    Ok(())
                },
                0x11 => {
                    self.op_bgezal(instruction);
                    Ok(())
                },
                _ => Err(unimplemented),
            },
            0x02 => {
                self.op_j(instruction);
                Ok(())
            },
            0x03 => {
                self.op_jal(instruction);
                Ok(())
            },
            0x04 => {
                self.op_beq(instruction);
                Ok(())
            },
            0x05 => {
                self.op_bne(instruction);
                Ok(())
            },
            0x06 => {
                self.op_blez(instruction);
                Ok(())
            },
            0x07 => {
                self.op_bgtz(instruction);
                Ok(())
            },
            0x08 => {
                self.op_addi(instruction);
                Ok(())
            },
            0x09 => {
                self.op_addiu(instruction);
                Ok(())
            },
            0x0a => {
                self.op_slti(instruction);
                Ok(())
            },
            0x0b => {
                self.op_sltiu(instruction);
                Ok(())
            },
            0x0c => {
                self.op_andi(instruction);
                Ok(())
            },
            0x0d => {
                self.op_ori(instruction);
                Ok(())
            },
            0x0e => {
                self.op_xori(instruction);
                Ok(())
            },
            0x0f => {
                self.op_lui(instruction);
                Ok(())
            },
            0x10 => match instruction.cop_op() {
                0x00 => {
                    self.op_mfc0(instruction);
                    Ok(())
                },
                0x04 => {
                    self.op_mtc0(instruction);
                    Ok(())
                },
                0x10 => {
                    if instruction.funct() == 0x10 {
                        self.op_rfe(instruction);
                        Ok(())
                    } else {
                        Err(unimplemented)
                    }
                },
                _ => Err(unimplemented),
            },
            0x11 => {
                self.raise_exception(instruction, Exception::Cpu);
                Ok(())
            },
            0x12 => {
                self.raise_exception(instruction, Exception::Cpu);
                Ok(())
            },
            0x13 => {
                self.raise_exception(instruction, Exception::Cpu);
                Ok(())
            },
            0x20 => self.op_lb(instruction),
            0x21 => self.op_lh(instruction),
            0x22 => self.op_lwl(instruction),
            0x23 => self.op_lw(instruction),
            0x24 => self.op_lbu(instruction),
            0x25 => self.op_lhu(instruction),
            0x26 => self.op_lwr(instruction),
            0x28 => self.op_sb(instruction),
            0x29 => self.op_sh(instruction),
            0x2a => self.op_swl(instruction),
            0x2b => self.op_sw(instruction),
            0x2e => self.op_swr(instruction),
            0x30 | 0x31 | 0x33 | 0x38 | 0x39 | 0x3b => {
                self.raise_exception(instruction, Exception::Cpu);
                Ok(())
            },
            0x32 => self.op_lwc2(instruction),
            0x3a => self.op_swc2(instruction),
            _ => {
                self.raise_exception(instruction, Exception::Ri);
                Ok(())
            },
        }
    }

    /// Steps one instruction: fetches at the program counter, drains the
    /// pending branch and load, executes, and promotes the shadow register
    /// file. An unresolvable state is reported instead and the step stops
    /// where it stands.
    #[verifier::rlimit(100)]
    pub fn step(&mut self) -> (r: Result<(), Abort>)
        requires
            cpu_wf(old(self)@),
        ensures
            cpu_wf(final(self)@),
            final(self)@ == step_spec(old(self)@).0,
            matches_abort(r, step_spec(old(self)@).1),
    {
        proof {
            reveal(step_spec);
        }
        if self.pc % 4 != 0 {
            return Err(Abort::UnalignedProgramCounter { pc: self.pc });
        }

        let word = match self.bus.read_u32(self.pc) {
            Ok(w) => w,
            Err(a) => {
                return Err(a);
            },
        };
        let instruction = Instruction(word, self.pc);
        self.pc = self.pc.wrapping_add(4);

        if let Some(branch_pc) = self.branch_delay_pc {
            self.pc = branch_pc;
            self.branch_delay_pc = None;
        }

        if let Some((register, value)) = self.load_delay_register {
            self.set_register(register, value);
            self.load_delay_register = None;
        }

        let res = self.execute(instruction);
        if let Err(a) = res {
            return Err(a);
        }

        let promoted = copy_words(&self.out_registers);
        self.registers = promoted;
        Ok(())
    }
}

/// A vector of the given number of zeroed words.
fn zeroed_words(n: usize) -> (r: Vec<u32>)
    ensures
        r@ == Seq::<u32>::new(n as nat, |i: int| 0u32),
{
    let mut data: Vec<u32> = Vec::new();
    let mut i: usize = 0;
    while i < n
        invariant
            i <= n,
            data@ == Seq::<u32>::new(i as nat, |j: int| 0u32),
        decreases n - i,
    {
        data.push(0);
        i = i + 1;
        proof {
            assert(data@ =~= Seq::<u32>::new(i as nat, |j: int| 0u32));
        }
    }
    data
}

/// A copy of a vector of words.
fn copy_words(src: &Vec<u32>) -> (r: Vec<u32>)
    ensures
        r@ == src@,
{
    let mut data: Vec<u32> = Vec::new();
    let mut i: usize = 0;
    while i < src.len()
        invariant
            i <= src@.len(),
            data@ == src@.subrange(0, i as int),
        decreases src@.len() - i,
    {
        data.push(src[i]);
        i = i + 1;
        proof {
            assert(data@ =~= src@.subrange(0, i as int));
        }
    }
    proof {
        assert(src@.subrange(0, src@.len() as int) =~= src@);
    }
    data
}

} // verus!
