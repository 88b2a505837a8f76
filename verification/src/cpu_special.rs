//! The R-type SPECIAL instructions: shifts, register jumps, the traps, the
//! HI/LO moves, multiply and divide with their documented fixups, and the
//! arithmetic, logic and comparison group.

use vstd::prelude::*;

use crate::cpu::{branch_to_spec, cpu_set_register, cpu_wf, raise_exception_spec, reg_of, Cpu, CpuView};
use crate::exception::Exception;
use crate::instruction::{spec_rd, spec_rs, spec_rt, spec_shamt, Instruction};

verus! {

/// Five-bit masking keeps a variable shift amount below the word width.
pub proof fn lemma_shift_amount_masked(x: u32)
    ensures
        x & 0x1f < 32,
{
    assert(x & 0x1f < 32) by (bit_vector);
}

/// The CPU after SLL: the register shifted left by the immediate amount.
pub open spec fn op_sll_spec(c: CpuView, instruction: Instruction) -> CpuView {
    let t = reg_of(c, spec_rt(instruction.0));
    cpu_set_register(c, crate::instruction::RegisterIndex(spec_rd(instruction.0)), t << spec_shamt(instruction.0))
}

/// The CPU after SRL: the register shifted right logically by the immediate
/// amount.
pub open spec fn op_srl_spec(c: CpuView, instruction: Instruction) -> CpuView {
    let t = reg_of(c, spec_rt(instruction.0));
    cpu_set_register(c, crate::instruction::RegisterIndex(spec_rd(instruction.0)), t >> spec_shamt(instruction.0))
}

/// The CPU after SRA: the register shifted right arithmetically by the
/// immediate amount.
pub open spec fn op_sra_spec(c: CpuView, instruction: Instruction) -> CpuView {
    let t = reg_of(c, spec_rt(instruction.0)) as i32;
    cpu_set_register(
        c,
        crate::instruction::RegisterIndex(spec_rd(instruction.0)),
        (t >> spec_shamt(instruction.0)) as u32,
    )
}

/// The CPU after SLLV: the register shifted left by the low five bits of
/// another.
pub open spec fn op_sllv_spec(c: CpuView, instruction: Instruction) -> CpuView {
    let t = reg_of(c, spec_rt(instruction.0));
    let s = reg_of(c, spec_rs(instruction.0));
    cpu_set_register(c, crate::instruction::RegisterIndex(spec_rd(instruction.0)), t << (s & 0x1f))
}

/// The CPU after SRLV: the register shifted right logically by the low five
/// bits of another.
pub open spec fn op_srlv_spec(c: CpuView, instruction: Instruction) -> CpuView {
    let t = reg_of(c, spec_rt(instruction.0));
    let s = reg_of(c, spec_rs(instruction.0));
    cpu_set_register(c, crate::instruction::RegisterIndex(spec_rd(instruction.0)), t >> (s & 0x1f))
}

/// The CPU after SRAV: the register shifted right arithmetically by the low
/// five bits of another.
pub open spec fn op_srav_spec(c: CpuView, instruction: Instruction) -> CpuView {
    let t = reg_of(c, spec_rt(instruction.0)) as i32;
    let s = reg_of(c, spec_rs(instruction.0));
    cpu_set_register(
        c,
        crate::instruction::RegisterIndex(spec_rd(instruction.0)),
        (t >> (s & 0x1f)) as u32,
    )
}

/// The CPU after JR: the register becomes the pending branch target.
pub open spec fn op_jr_spec(c: CpuView, instruction: Instruction) -> CpuView {
    branch_to_spec(c, reg_of(c, spec_rs(instruction.0)))
}

/// The CPU after JALR: as JR, and the return address lands in the named
/// destination register.
pub open spec fn op_jalr_spec(c: CpuView, instruction: Instruction) -> CpuView {
    branch_to_spec(
        cpu_set_register(c, crate::instruction::RegisterIndex(spec_rd(instruction.0)), c.pc),
        reg_of(c, spec_rs(instruction.0)),
    )
}

/// The CPU after SYSCALL: the syscall exception.
pub open spec fn op_syscall_spec(c: CpuView, instruction: Instruction) -> CpuView {
    raise_exception_spec(c, instruction, Exception::Syscall)
}

/// The CPU after BREAK: the breakpoint exception.
pub open spec fn op_break_spec(c: CpuView, instruction: Instruction) -> CpuView {
    raise_exception_spec(c, instruction, Exception::Bp)
}

/// The CPU after MFHI: HI lands in the destination register.
pub open spec fn op_mfhi_spec(c: CpuView, instruction: Instruction) -> CpuView {
    cpu_set_register(c, crate::instruction::RegisterIndex(spec_rd(instruction.0)), c.hi)
}

/// The CPU after MTHI: the register lands in HI.
pub open spec fn op_mthi_spec(c: CpuView, instruction: Instruction) -> CpuView {
    CpuView { hi: reg_of(c, spec_rs(instruction.0)), ..c }
}

/// The CPU after MFLO: LO lands in the destination register.
pub open spec fn op_mflo_spec(c: CpuView, instruction: Instruction) -> CpuView {
    cpu_set_register(c, crate::instruction::RegisterIndex(spec_rd(instruction.0)), c.lo)
}

/// The CPU after MTLO: the register lands in LO.
pub open spec fn op_mtlo_spec(c: CpuView, instruction: Instruction) -> CpuView {
    CpuView { lo: reg_of(c, spec_rs(instruction.0)), ..c }
}

/// The CPU after MULT: the signed 64-bit product of the two registers,
/// split across HI and LO.
pub open spec fn op_mult_spec(c: CpuView, instruction: Instruction) -> CpuView {
    let s = reg_of(c, spec_rs(instruction.0)) as i32 as i64;
    let t = reg_of(c, spec_rt(instruction.0)) as i32 as i64;
    let product = (s * t) as u64;
    CpuView { hi: (product >> 32) as u32, lo: product as u32, ..c }
}

/// The CPU after MULTU: the unsigned 64-bit product of the two registers,
/// split across HI and LO.
pub open spec fn op_multu_spec(c: CpuView, instruction: Instruction) -> CpuView {
    let s = reg_of(c, spec_rs(instruction.0)) as u64;
    let t = reg_of(c, spec_rt(instruction.0)) as u64;
    let product = (s * t) as u64;
    CpuView { hi: (product >> 32) as u32, lo: product as u32, ..c }
}

/// The CPU after DIV, the signed divide with its fixups: a zero divisor
/// leaves the dividend in HI and all-ones or one in LO by the dividend's
/// sign; the one overflowing quotient leaves itself; otherwise LO takes the
/// quotient truncated toward zero and HI the remainder with the dividend's
/// sign.
pub open spec fn op_div_spec(c: CpuView, instruction: Instruction) -> CpuView {
    let s = reg_of(c, spec_rs(instruction.0)) as i32;
    let t = reg_of(c, spec_rt(instruction.0)) as i32;
    if t == 0 {
        CpuView {
            hi: s as u32,
            lo: if s >= 0 {
                0xffffffffu32
            } else {
                1u32
            },
            ..c
        }
    } else if s as u32 == 0x80000000 && t == -1 {
        CpuView { hi: 0, lo: 0x80000000, ..c }
    } else {
        let quotient = match s.checked_div(t) {
            Some(q) => q,
            None => 0i32,
        };
        let remainder = match s.checked_rem(t) {
            Some(r) => r,
            None => 0i32,
        };
        CpuView { hi: remainder as u32, lo: quotient as u32, ..c }
    }
}

/// The CPU after DIVU, the unsigned divide: a zero divisor leaves the
/// dividend in HI and all-ones in LO; otherwise LO takes the quotient and
/// HI the remainder.
pub open spec fn op_divu_spec(c: CpuView, instruction: Instruction) -> CpuView {
    let s = reg_of(c, spec_rs(instruction.0));
    let t = reg_of(c, spec_rt(instruction.0));
    if t == 0 {
        CpuView { hi: s, lo: 0xffffffffu32, ..c }
    } else {
        CpuView { hi: s % t, lo: s / t, ..c }
    }
}

/// The CPU after ADD: the signed sum, or the overflow exception with the
/// destination untouched.
pub open spec fn op_add_spec(c: CpuView, instruction: Instruction) -> CpuView {
    let s = reg_of(c, spec_rs(instruction.0)) as i32;
    let t = reg_of(c, spec_rt(instruction.0)) as i32;
    match s.checked_add(t) {
        Some(result) => cpu_set_register(
            c,
            crate::instruction::RegisterIndex(spec_rd(instruction.0)),
            result as u32,
        ),
        None => raise_exception_spec(c, instruction, Exception::Ov),
    }
}

/// The CPU after ADDU: the wrapping sum.
pub open spec fn op_addu_spec(c: CpuView, instruction: Instruction) -> CpuView {
    cpu_set_register(
        c,
        crate::instruction::RegisterIndex(spec_rd(instruction.0)),
        reg_of(c, spec_rs(instruction.0)).wrapping_add(reg_of(c, spec_rt(instruction.0))),
    )
}

/// The CPU after SUB: the signed difference, or the overflow exception with
/// the destination untouched.
pub open spec fn op_sub_spec(c: CpuView, instruction: Instruction) -> CpuView {
    let s = reg_of(c, spec_rs(instruction.0)) as i32;
    let t = reg_of(c, spec_rt(instruction.0)) as i32;
    match s.checked_sub(t) {
        Some(result) => cpu_set_register(
            c,
            crate::instruction::RegisterIndex(spec_rd(instruction.0)),
            result as u32,
        ),
        None => raise_exception_spec(c, instruction, Exception::Ov),
    }
}

/// The CPU after SUBU: the wrapping difference.
pub open spec fn op_subu_spec(c: CpuView, instruction: Instruction) -> CpuView {
    cpu_set_register(
        c,
        crate::instruction::RegisterIndex(spec_rd(instruction.0)),
        reg_of(c, spec_rs(instruction.0)).wrapping_sub(reg_of(c, spec_rt(instruction.0))),
    )
}

/// The CPU after AND.
pub open spec fn op_and_spec(c: CpuView, instruction: Instruction) -> CpuView {
    cpu_set_register(
        c,
        crate::instruction::RegisterIndex(spec_rd(instruction.0)),
        reg_of(c, spec_rs(instruction.0)) & reg_of(c, spec_rt(instruction.0)),
    )
}

/// The CPU after OR.
pub open spec fn op_or_spec(c: CpuView, instruction: Instruction) -> CpuView {
    cpu_set_register(
        c,
        crate::instruction::RegisterIndex(spec_rd(instruction.0)),
        reg_of(c, spec_rs(instruction.0)) | reg_of(c, spec_rt(instruction.0)),
    )
}

/// The CPU after XOR.
pub open spec fn op_xor_spec(c: CpuView, instruction: Instruction) -> CpuView {
    cpu_set_register(
        c,
        crate::instruction::RegisterIndex(spec_rd(instruction.0)),
        reg_of(c, spec_rs(instruction.0)) ^ reg_of(c, spec_rt(instruction.0)),
    )
}

/// The CPU after NOR.
pub open spec fn op_nor_spec(c: CpuView, instruction: Instruction) -> CpuView {
    cpu_set_register(
        c,
        crate::instruction::RegisterIndex(spec_rd(instruction.0)),
        !(reg_of(c, spec_rs(instruction.0)) | reg_of(c, spec_rt(instruction.0))),
    )
}

/// The CPU after SLT: one when the first register is below the second as
/// signed values, else zero.
pub open spec fn op_slt_spec(c: CpuView, instruction: Instruction) -> CpuView {
    let result: u32 = if (reg_of(c, spec_rs(instruction.0)) as i32) < (reg_of(
        c,
        spec_rt(instruction.0),
    ) as i32) {
        1
    } else {
        0
    };
    cpu_set_register(c, crate::instruction::RegisterIndex(spec_rd(instruction.0)), result)
}

/// The CPU after SLTU: one when the first register is below the second as
/// unsigned values, else zero.
pub open spec fn op_sltu_spec(c: CpuView, instruction: Instruction) -> CpuView {
    let result: u32 = if reg_of(c, spec_rs(instruction.0)) < reg_of(c, spec_rt(instruction.0)) {
        1
    } else {
        0
    };
    cpu_set_register(c, crate::instruction::RegisterIndex(spec_rd(instruction.0)), result)
}

impl Cpu {
    /// Opcode SLL: shift left logical by the immediate amount.
    pub fn op_sll(&mut self, instruction: Instruction)
        requires
            cpu_wf(old(self)@),
        ensures
            cpu_wf(final(self)@),
            final(self)@ == op_sll_spec(old(self)@, instruction),
    {
        let t = self.register(instruction.rt());
        self.set_register(instruction.rd(), t << instruction.shamt());
    }

    /// Opcode SRL: shift right logical by the immediate amount.
    pub fn op_srl(&mut self, instruction: Instruction)
        requires
            cpu_wf(old(self)@),
        ensures
            cpu_wf(final(self)@),
            final(self)@ == op_srl_spec(old(self)@, instruction),
    {
        let t = self.register(instruction.rt());
        self.set_register(instruction.rd(), t >> instruction.shamt());
    }

    /// Opcode SRA: shift right arithmetic by the immediate amount.
    pub fn op_sra(&mut self, instruction: Instruction)
        requires
            cpu_wf(old(self)@),
        ensures
            cpu_wf(final(self)@),
            final(self)@ == op_sra_spec(old(self)@, instruction),
    {
        let t = self.register(instruction.rt()) as i32;
        self.set_register(instruction.rd(), (t >> instruction.shamt()) as u32);
    }

    /// Opcode SLLV: shift left logical by the low five bits of a register.
    pub fn op_sllv(&mut self, instruction: Instruction)
        requires
            cpu_wf(old(self)@),
        ensures
            cpu_wf(final(self)@),
            final(self)@ == op_sllv_spec(old(self)@, instruction),
    {
        let t = self.register(instruction.rt());
        let s = self.register(instruction.rs());
        proof {
            lemma_shift_amount_masked(s);
        }
        self.set_register(instruction.rd(), t << (s & 0x1f));
    }

    /// Opcode SRLV: shift right logical by the low five bits of a register.
    pub fn op_srlv(&mut self, instruction: Instruction)
        requires
            cpu_wf(old(self)@),
        ensures
            cpu_wf(final(self)@),
            final(self)@ == op_srlv_spec(old(self)@, instruction),
    {
        let t = self.register(instruction.rt());
        let s = self.register(instruction.rs());
        proof {
            lemma_shift_amount_masked(s);
        }
        self.set_register(instruction.rd(), t >> (s & 0x1f));
    }

    /// Opcode SRAV: shift right arithmetic by the low five bits of a
    /// register.
    pub fn op_srav(&mut self, instruction: Instruction)
        requires
            cpu_wf(old(self)@),
        ensures
            cpu_wf(final(self)@),
            final(self)@ == op_srav_spec(old(self)@, instruction),
    {
        let t = self.register(instruction.rt()) as i32;
        let s = self.register(instruction.rs());
        proof {
            lemma_shift_amount_masked(s);
        }
        self.set_register(instruction.rd(), (t >> (s & 0x1f)) as u32);
    }

    /// Opcode JR: jump to the register.
    pub fn op_jr(&mut self, instruction: Instruction)
        requires
            cpu_wf(old(self)@),
        ensures
            cpu_wf(final(self)@),
            final(self)@ == op_jr_spec(old(self)@, instruction),
    {
        let address = self.register(instruction.rs());
        self.branch_delay_pc = Some(address);
    }

    /// Opcode JALR: jump to the register and leave the return address in
    /// the destination register.
    pub fn op_jalr(&mut self, instruction: Instruction)
        requires
            cpu_wf(old(self)@),
        ensures
            cpu_wf(final(self)@),
            final(self)@ == op_jalr_spec(old(self)@, instruction),
    {
        let address = self.register(instruction.rs());
        let pc = self.pc;
        self.set_register(instruction.rd(), pc);
        self.branch_delay_pc = Some(address);
    }

    /// Opcode SYSCALL: raise the syscall exception.
    pub fn op_syscall(&mut self, instruction: Instruction)
        requires
            cpu_wf(old(self)@),
        ensures
            cpu_wf(final(self)@),
            final(self)@ == op_syscall_spec(old(self)@, instruction),
    {
        self.raise_exception(instruction, Exception::Syscall);
    }

    /// Opcode BREAK: raise the breakpoint exception.
    pub fn op_break(&mut self, instruction: Instruction)
        requires
            cpu_wf(old(self)@),
        ensures
            cpu_wf(final(self)@),
            final(self)@ == op_break_spec(old(self)@, instruction),
    {
        self.raise_exception(instruction, Exception::Bp);
    }

    /// Opcode MFHI: move from HI.
    pub fn op_mfhi(&mut self, instruction: Instruction)
        requires
            cpu_wf(old(self)@),
        ensures
            cpu_wf(final(self)@),
            final(self)@ == op_mfhi_spec(old(self)@, instruction),
    {
        let result = self.hi;
        self.set_register(instruction.rd(), result);
    }

    /// Opcode MTHI: move to HI.
    pub fn op_mthi(&mut self, instruction: Instruction)
        requires
            cpu_wf(old(self)@),
        ensures
            cpu_wf(final(self)@),
            final(self)@ == op_mthi_spec(old(self)@, instruction),
    {
        self.hi = self.register(instruction.rs());
    }

    /// Opcode MFLO: move from LO.
    pub fn op_mflo(&mut self, instruction: Instruction)
        requires
            cpu_wf(old(self)@),
        ensures
            cpu_wf(final(self)@),
            final(self)@ == op_mflo_spec(old(self)@, instruction),
    {
        let result = self.lo;
        self.set_register(instruction.rd(), result);
    }

    /// Opcode MTLO: move to LO.
    pub fn op_mtlo(&mut self, instruction: Instruction)
        requires
            cpu_wf(old(self)@),
        ensures
            cpu_wf(final(self)@),
            final(self)@ == op_mtlo_spec(old(self)@, instruction),
    {
        self.lo = self.register(instruction.rs());
    }

    /// Opcode MULT: multiply signed into HI and LO.
    pub fn op_mult(&mut self, instruction: Instruction)
        requires
            cpu_wf(old(self)@),
        ensures
            cpu_wf(final(self)@),
            final(self)@ == op_mult_spec(old(self)@, instruction),
    {
        let s = self.register(instruction.rs()) as i32 as i64;
        let t = self.register(instruction.rt()) as i32 as i64;
        proof {
            assert(s * t <= 0x4000000000000000 && s * t >= -0x4000000000000000)
                by (nonlinear_arith)
                requires
                    -0x80000000 <= s <= 0x7fffffff,
                    -0x80000000 <= t <= 0x7fffffff,
            ;
        }
        let product = (s * t) as u64;
        self.hi = (product >> 32) as u32;
        self.lo = product as u32;
    }

    /// Opcode MULTU: multiply unsigned into HI and LO.
    pub fn op_multu(&mut self, instruction: Instruction)
        requires
            cpu_wf(old(self)@),
        ensures
            cpu_wf(final(self)@),
            final(self)@ == op_multu_spec(old(self)@, instruction),
    {
        let s = self.register(instruction.rs()) as u64;
        let t = self.register(instruction.rt()) as u64;
        proof {
            assert(s * t <= 0xffffffffu64 * 0xffffffffu64) by (nonlinear_arith)
                requires
                    s <= 0xffffffffu64,
                    t <= 0xffffffffu64,
            ;
        }
        let product = (s * t) as u64;
        self.hi = (product >> 32) as u32;
        self.lo = product as u32;
    }

    /// Opcode DIV: divide signed, with the zero-divisor and overflow fixups.
    pub fn op_div(&mut self, instruction: Instruction)
        requires
            cpu_wf(old(self)@),
        ensures
            cpu_wf(final(self)@),
            final(self)@ == op_div_spec(old(self)@, instruction),
    {
        let s = self.register(instruction.rs()) as i32;
        let t = self.register(instruction.rt()) as i32;
        if t == 0 {
            self.hi = s as u32;
            self.lo = if s >= 0 {
                0xffffffff
            } else {
                1
            };
        } else if s as u32 == 0x80000000 && t == -1 {
            self.hi = 0;
            self.lo = 0x80000000;
        } else {
            let quotient = match s.checked_div(t) {
                Some(q) => q,
                None => 0,
            };
            let remainder = match s.checked_rem(t) {
                Some(r) => r,
                None => 0,
            };
            self.hi = remainder as u32;
            self.lo = quotient as u32;
        }
    }

    /// Opcode DIVU: divide unsigned, with the zero-divisor fixup.
    pub fn op_divu(&mut self, instruction: Instruction)
        requires
            cpu_wf(old(self)@),
        ensures
            cpu_wf(final(self)@),
            final(self)@ == op_divu_spec(old(self)@, instruction),
    {
        let s = self.register(instruction.rs());
        let t = self.register(instruction.rt());
        if t == 0 {
            self.hi = s;
            self.lo = 0xffffffff;
        } else {
            self.hi = s % t;
            self.lo = s / t;
        }
    }

    /// Opcode ADD: add signed; an overflow raises the overflow exception
    /// and leaves the destination untouched.
    pub fn op_add(&mut self, instruction: Instruction)
        requires
            cpu_wf(old(self)@),
        ensures
            cpu_wf(final(self)@),
            final(self)@ == op_add_spec(old(self)@, instruction),
    {
        let s = self.register(instruction.rs()) as i32;
        let t = self.register(instruction.rt()) as i32;
        match s.checked_add(t) {
            Some(result) => self.set_register(instruction.rd(), result as u32),
            None => self.raise_exception(instruction, Exception::Ov),
        }
    }

    /// Opcode ADDU: add unsigned, wrapping.
    pub fn op_addu(&mut self, instruction: Instruction)
        requires
            cpu_wf(old(self)@),
        ensures
            cpu_wf(final(self)@),
            final(self)@ == op_addu_spec(old(self)@, instruction),
    {
        let s = self.register(instruction.rs());
        let t = self.register(instruction.rt());
        self.set_register(instruction.rd(), s.wrapping_add(t));
    }

    /// Opcode SUB: subtract signed; an overflow raises the overflow
    /// exception and leaves the destination untouched.
    pub fn op_sub(&mut self, instruction: Instruction)
        requires
            cpu_wf(old(self)@),
        ensures
            cpu_wf(final(self)@),
            final(self)@ == op_sub_spec(old(self)@, instruction),
    {
        let s = self.register(instruction.rs()) as i32;
        let t = self.register(instruction.rt()) as i32;
        match s.checked_sub(t) {
            Some(result) => self.set_register(instruction.rd(), result as u32),
            None => self.raise_exception(instruction, Exception::Ov),
        }
    }

    /// Opcode SUBU: subtract unsigned, wrapping.
    pub fn op_subu(&mut self, instruction: Instruction)
        requires
            cpu_wf(old(self)@),
        ensures
            cpu_wf(final(self)@),
            final(self)@ == op_subu_spec(old(self)@, instruction),
    {
        let s = self.register(instruction.rs());
        let t = self.register(instruction.rt());
        self.set_register(instruction.rd(), s.wrapping_sub(t));
    }

    /// Opcode AND.
    pub fn op_and(&mut self, instruction: Instruction)
        requires
            cpu_wf(old(self)@),
        ensures
            cpu_wf(final(self)@),
            final(self)@ == op_and_spec(old(self)@, instruction),
    {
        let s = self.register(instruction.rs());
        let t = self.register(instruction.rt());
        self.set_register(instruction.rd(), s & t);
    }

    /// Opcode OR.
    pub fn op_or(&mut self, instruction: Instruction)
        requires
            cpu_wf(old(self)@),
        ensures
            cpu_wf(final(self)@),
            final(self)@ == op_or_spec(old(self)@, instruction),
    {
        let s = self.register(instruction.rs());
        let t = self.register(instruction.rt());
        self.set_register(instruction.rd(), s | t);
    }

    /// Opcode XOR.
    pub fn op_xor(&mut self, instruction: Instruction)
        requires
            cpu_wf(old(self)@),
        ensures
            cpu_wf(final(self)@),
            final(self)@ == op_xor_spec(old(self)@, instruction),
    {
        let s = self.register(instruction.rs());
        let t = self.register(instruction.rt());
        self.set_register(instruction.rd(), s ^ t);
    }

    /// Opcode NOR.
    pub fn op_nor(&mut self, instruction: Instruction)
        requires
            cpu_wf(old(self)@),
        ensures
            cpu_wf(final(self)@),
            final(self)@ == op_nor_spec(old(self)@, instruction),
    {
        let s = self.register(instruction.rs());
        let t = self.register(instruction.rt());
        self.set_register(instruction.rd(), !(s | t));
    }

    /// Opcode SLT: set on less than, signed.
    pub fn op_slt(&mut self, instruction: Instruction)
        requires
            cpu_wf(old(self)@),
        ensures
            cpu_wf(final(self)@),
            final(self)@ == op_slt_spec(old(self)@, instruction),
    {
        let s = self.register(instruction.rs()) as i32;
        let t = self.register(instruction.rt()) as i32;
        let result: u32 = if s < t {
            1
        } else {
            0
        };
        self.set_register(instruction.rd(), result);
    }

    /// Opcode SLTU: set on less than, unsigned.
    pub fn op_sltu(&mut self, instruction: Instruction)
        requires
            cpu_wf(old(self)@),
        ensures
            cpu_wf(final(self)@),
            final(self)@ == op_sltu_spec(old(self)@, instruction),
    {
        let s = self.register(instruction.rs());
        let t = self.register(instruction.rt());
        let result: u32 = if s < t {
            1
        } else {
            0
        };
        self.set_register(instruction.rd(), result);
    }
}

} // verus!
