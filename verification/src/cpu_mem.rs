//! The loads and stores: bytes, half-words and words with their alignment
//! exceptions, and the unaligned word pair that merges with the register.
//! While the cache is isolated every one of them leaves the bus untouched,
//! and a load then loads nothing.

use vstd::prelude::*;

use crate::abort::{matches_abort, Abort};
use crate::bus::{bus_read16_spec, bus_read32_spec, bus_read8_spec, bus_write16_spec, bus_write32_spec, bus_write8_spec};
use crate::cpu::{cache_isolated, cpu_wf, raise_exception_spec, reg_of, Cpu, CpuView};
use crate::exception::Exception;
use crate::instruction::{spec_imm, spec_rs, spec_rt, Instruction, RegisterIndex};
use crate::words::SextExt;

verus! {

/// Word-aligning an address clears its two low bits, which stay below four.
pub proof fn lemma_word_aligned(address: u32)
    ensures
        (address & !3u32) % 4 == 0,
        address & 3 < 4,
{
    assert((address & !3u32) % 4 == 0 && address & 3 < 4) by (bit_vector);
}

/// The effective address of a load or store: the base register plus the
/// sign-extended displacement, wrapping.
pub open spec fn effective_address(c: CpuView, word: u32) -> u32 {
    reg_of(c, spec_rs(word)).wrapping_add(spec_imm(word) as i16 as u32)
}

/// The CPU with a pending load of `value` into the instruction's target
/// register.
pub open spec fn with_pending_load(c: CpuView, word: u32, value: u32) -> CpuView {
    CpuView { load_delay: Some((RegisterIndex(spec_rt(word)), value)), ..c }
}

/// The CPU after LB: the byte at the effective address, sign-extended, as a
/// pending load. Nothing happens while the cache is isolated.
pub open spec fn op_lb_spec(c: CpuView, instruction: Instruction) -> (CpuView, Option<Abort>) {
    let address = effective_address(c, instruction.0);
    if cache_isolated(c) {
        (c, None)
    } else {
        match bus_read8_spec(c.bus, address) {
            Err(a) => (c, Some(a)),
            Ok(byte) => (with_pending_load(c, instruction.0, byte as i8 as u32), None),
        }
    }
}

/// The CPU after LBU: the byte at the effective address, zero-extended, as
/// a pending load.
pub open spec fn op_lbu_spec(c: CpuView, instruction: Instruction) -> (CpuView, Option<Abort>) {
    let address = effective_address(c, instruction.0);
    if cache_isolated(c) {
        (c, None)
    } else {
        match bus_read8_spec(c.bus, address) {
            Err(a) => (c, Some(a)),
            Ok(byte) => (with_pending_load(c, instruction.0, byte as u32), None),
        }
    }
}

/// The CPU after LH: the half-word at the effective address,
/// sign-extended, as a pending load; an odd address raises the load
/// address-error exception and loads nothing.
pub open spec fn op_lh_spec(c: CpuView, instruction: Instruction) -> (CpuView, Option<Abort>) {
    let address = effective_address(c, instruction.0);
    if cache_isolated(c) {
        (c, None)
    } else if address % 2 != 0 {
        (raise_exception_spec(c, instruction, Exception::Adel), None)
    } else {
        match bus_read16_spec(c.bus, address) {
            Err(a) => (c, Some(a)),
            Ok(half) => (with_pending_load(c, instruction.0, half as i16 as u32), None),
        }
    }
}

/// The CPU after LHU: the half-word at the effective address,
/// zero-extended, as a pending load; an odd address raises the load
/// address-error exception.
pub open spec fn op_lhu_spec(c: CpuView, instruction: Instruction) -> (CpuView, Option<Abort>) {
    let address = effective_address(c, instruction.0);
    if cache_isolated(c) {
        (c, None)
    } else if address % 2 != 0 {
        (raise_exception_spec(c, instruction, Exception::Adel), None)
    } else {
        match bus_read16_spec(c.bus, address) {
            Err(a) => (c, Some(a)),
            Ok(half) => (with_pending_load(c, instruction.0, half as u32), None),
        }
    }
}

/// The CPU after LW: the word at the effective address as a pending load;
/// an address off the word grid raises the load address-error exception and
/// mutates no register.
pub open spec fn op_lw_spec(c: CpuView, instruction: Instruction) -> (CpuView, Option<Abort>) {
    let address = effective_address(c, instruction.0);
    if cache_isolated(c) {
        (c, None)
    } else if address % 4 != 0 {
        (raise_exception_spec(c, instruction, Exception::Adel), None)
    } else {
        match bus_read32_spec(c.bus, address) {
            Err(a) => (c, Some(a)),
            Ok(word) => (with_pending_load(c, instruction.0, word), None),
        }
    }
}

/// The merge an LWL performs: the high part of the unaligned word joins the
/// kept low bytes of the register's current shadow value.
pub open spec fn lwl_merge(low_bits: u32, value: u32, word: u32) -> u32 {
    if low_bits == 0 {
        (value & 0x00ffffff) | (word << 24)
    } else if low_bits == 1 {
        (value & 0x0000ffff) | (word << 16)
    } else if low_bits == 2 {
        (value & 0x000000ff) | (word << 8)
    } else {
        word
    }
}

/// The merge an LWR performs: the low part of the unaligned word joins the
/// kept high bytes of the register's current shadow value.
pub open spec fn lwr_merge(low_bits: u32, value: u32, word: u32) -> u32 {
    if low_bits == 0 {
        word
    } else if low_bits == 1 {
        (value & 0xff000000) | (word >> 8)
    } else if low_bits == 2 {
        (value & 0xffff0000) | (word >> 16)
    } else {
        (value & 0xffffff00) | (word >> 24)
    }
}

/// The CPU after LWL: the aligned word containing the effective address is
/// read, merged leftward with the target register's shadow value, and left
/// as a pending load.
pub open spec fn op_lwl_spec(c: CpuView, instruction: Instruction) -> (CpuView, Option<Abort>) {
    let address = effective_address(c, instruction.0);
    if cache_isolated(c) {
        (c, None)
    } else {
        let value = c.out_registers[spec_rt(instruction.0) as int];
        match bus_read32_spec(c.bus, address & !3u32) {
            Err(a) => (c, Some(a)),
            Ok(word) => (
                with_pending_load(c, instruction.0, lwl_merge(address & 3, value, word)),
                None,
            ),
        }
    }
}

/// The CPU after LWR: the aligned word containing the effective address is
/// read, merged rightward with the target register's shadow value, and left
/// as a pending load.
pub open spec fn op_lwr_spec(c: CpuView, instruction: Instruction) -> (CpuView, Option<Abort>) {
    let address = effective_address(c, instruction.0);
    if cache_isolated(c) {
        (c, None)
    } else {
        let value = c.out_registers[spec_rt(instruction.0) as int];
        match bus_read32_spec(c.bus, address & !3u32) {
            Err(a) => (c, Some(a)),
            Ok(word) => (
                with_pending_load(c, instruction.0, lwr_merge(address & 3, value, word)),
                None,
            ),
        }
    }
}

/// The CPU after SB: the register's low byte stored at the effective
/// address. Nothing happens while the cache is isolated.
pub open spec fn op_sb_spec(c: CpuView, instruction: Instruction) -> (CpuView, Option<Abort>) {
    let address = effective_address(c, instruction.0);
    if cache_isolated(c) {
        (c, None)
    } else {
        let t = reg_of(c, spec_rt(instruction.0));
        let (bus2, abort) = bus_write8_spec(c.bus, address, t as u8);
        (CpuView { bus: bus2, ..c }, abort)
    }
}

/// The CPU after SH: the register's low half-word stored at the effective
/// address; an odd address raises the store address-error exception and
/// stores nothing.
pub open spec fn op_sh_spec(c: CpuView, instruction: Instruction) -> (CpuView, Option<Abort>) {
    let address = effective_address(c, instruction.0);
    if cache_isolated(c) {
        (c, None)
    } else if address % 2 != 0 {
        (raise_exception_spec(c, instruction, Exception::Ades), None)
    } else {
        let t = reg_of(c, spec_rt(instruction.0));
        let (bus2, abort) = bus_write16_spec(c.bus, address, t as u16);
        (CpuView { bus: bus2, ..c }, abort)
    }
}

/// The CPU after SW: the register stored at the effective address; an
/// address off the word grid raises the store address-error exception and
/// mutates no memory.
pub open spec fn op_sw_spec(c: CpuView, instruction: Instruction) -> (CpuView, Option<Abort>) {
    let address = effective_address(c, instruction.0);
    if cache_isolated(c) {
        (c, None)
    } else if address % 4 != 0 {
        (raise_exception_spec(c, instruction, Exception::Ades), None)
    } else {
        let t = reg_of(c, spec_rt(instruction.0));
        let (bus2, abort) = bus_write32_spec(c.bus, address, t);
        (CpuView { bus: bus2, ..c }, abort)
    }
}

/// The merge an SWL performs on the memory word: the register's high part
/// lands in the word's low bytes, the rest of the word is kept.
pub open spec fn swl_merge(low_bits: u32, memory: u32, t: u32) -> u32 {
    if low_bits == 0 {
        (memory & 0xffffff00) | (t >> 24)
    } else if low_bits == 1 {
        (memory & 0xffff0000) | (t >> 16)
    } else if low_bits == 2 {
        (memory & 0xff000000) | (t >> 8)
    } else {
        t
    }
}

/// The merge an SWR performs on the memory word: the register's low part
/// lands in the word's high bytes, the rest of the word is kept.
pub open spec fn swr_merge(low_bits: u32, memory: u32, t: u32) -> u32 {
    if low_bits == 0 {
        t
    } else if low_bits == 1 {
        (memory & 0x000000ff) | (t << 8)
    } else if low_bits == 2 {
        (memory & 0x0000ffff) | (t << 16)
    } else {
        (memory & 0x00ffffff) | (t << 24)
    }
}

/// The CPU after SWL: the aligned word containing the effective address is
/// read, merged leftward with the register, and stored back.
pub open spec fn op_swl_spec(c: CpuView, instruction: Instruction) -> (CpuView, Option<Abort>) {
    let address = effective_address(c, instruction.0);
    if cache_isolated(c) {
        (c, None)
    } else {
        let t = reg_of(c, spec_rt(instruction.0));
        let aligned = address & !3u32;
        match bus_read32_spec(c.bus, aligned) {
            Err(a) => (c, Some(a)),
            Ok(memory) => {
                let (bus2, abort) = bus_write32_spec(
                    c.bus,
                    aligned,
                    swl_merge(address & 3, memory, t),
                );
                (CpuView { bus: bus2, ..c }, abort)
            },
        }
    }
}

/// The CPU after SWR: the aligned word containing the effective address is
/// read, merged rightward with the register, and stored back.
pub open spec fn op_swr_spec(c: CpuView, instruction: Instruction) -> (CpuView, Option<Abort>) {
    let address = effective_address(c, instruction.0);
    if cache_isolated(c) {
        (c, None)
    } else {
        let t = reg_of(c, spec_rt(instruction.0));
        let aligned = address & !3u32;
        match bus_read32_spec(c.bus, aligned) {
            Err(a) => (c, Some(a)),
            Ok(memory) => {
                let (bus2, abort) = bus_write32_spec(
                    c.bus,
                    aligned,
                    swr_merge(address & 3, memory, t),
                );
                (CpuView { bus: bus2, ..c }, abort)
            },
        }
    }
}

impl Cpu {
    /// Whether the cache is isolated, read from the status register.
    fn cache_is_isolated(&self) -> (r: bool)
        requires
            self@.cop0.len() == 64,
        ensures
            r == cache_isolated(self@),
    {
        self.cop0_register(crate::instruction::CopRegisterIndex(12)) & 0x10000 != 0
    }

    /// Opcode LB: load a byte, sign-extended, into the load-delay slot.
    pub fn op_lb(&mut self, instruction: Instruction) -> (r: Result<(), Abort>)
        requires
            cpu_wf(old(self)@),
        ensures
            cpu_wf(final(self)@),
            final(self)@ == op_lb_spec(old(self)@, instruction).0,
            matches_abort(r, op_lb_spec(old(self)@, instruction).1),
    {
        let address = self.register(instruction.rs()).wrapping_add(
            instruction.imm().sign_extend(),
        );
        if self.cache_is_isolated() {
            return Ok(());
        }
        let byte = match self.bus.read_u8(address) {
            Ok(b) => b,
            Err(a) => {
                return Err(a);
            },
        };
        self.load_delay_register = Some((instruction.rt(), byte as i8 as u32));
        Ok(())
    }

    /// Opcode LBU: load a byte, zero-extended, into the load-delay slot.
    pub fn op_lbu(&mut self, instruction: Instruction) -> (r: Result<(), Abort>)
        requires
            cpu_wf(old(self)@),
        ensures
            cpu_wf(final(self)@),
            final(self)@ == op_lbu_spec(old(self)@, instruction).0,
            matches_abort(r, op_lbu_spec(old(self)@, instruction).1),
    {
        let address = self.register(instruction.rs()).wrapping_add(
            instruction.imm().sign_extend(),
        );
        if self.cache_is_isolated() {
            return Ok(());
        }
        let byte = match self.bus.read_u8(address) {
            Ok(b) => b,
            Err(a) => {
                return Err(a);
            },
        };
        self.load_delay_register = Some((instruction.rt(), byte as u32));
        Ok(())
    }

    /// Opcode LH: load a half-word, sign-extended, into the load-delay
    /// slot; an odd address raises the load address-error exception.
    pub fn op_lh(&mut self, instruction: Instruction) -> (r: Result<(), Abort>)
        requires
            cpu_wf(old(self)@),
        ensures
            cpu_wf(final(self)@),
            final(self)@ == op_lh_spec(old(self)@, instruction).0,
            matches_abort(r, op_lh_spec(old(self)@, instruction).1),
    {
        let address = self.register(instruction.rs()).wrapping_add(
            instruction.imm().sign_extend(),
        );
        if self.cache_is_isolated() {
            return Ok(());
        }
        if address % 2 != 0 {
            self.raise_exception(instruction, Exception::Adel);
            return Ok(());
        }
        let half = match self.bus.read_u16(address) {
            Ok(h) => h,
            Err(a) => {
                return Err(a);
            },
        };
        self.load_delay_register = Some((instruction.rt(), half.sign_extend()));
        Ok(())
    }

    /// Opcode LHU: load a half-word, zero-extended, into the load-delay
    /// slot; an odd address raises the load address-error exception.
    pub fn op_lhu(&mut self, instruction: Instruction) -> (r: Result<(), Abort>)
        requires
            cpu_wf(old(self)@),
        ensures
            cpu_wf(final(self)@),
            final(self)@ == op_lhu_spec(old(self)@, instruction).0,
            matches_abort(r, op_lhu_spec(old(self)@, instruction).1),
    {
        let address = self.register(instruction.rs()).wrapping_add(
            instruction.imm().sign_extend(),
        );
        if self.cache_is_isolated() {
            return Ok(());
        }
        if address % 2 != 0 {
            self.raise_exception(instruction, Exception::Adel);
            return Ok(());
        }
        let half = match self.bus.read_u16(address) {
            Ok(h) => h,
            Err(a) => {
                return Err(a);
            },
        };
        self.load_delay_register = Some((instruction.rt(), half as u32));
        Ok(())
    }

    /// Opcode LW: load a word into the load-delay slot; an address off the
    /// word grid raises the load address-error exception and mutates no
    /// register.
    pub fn op_lw(&mut self, instruction: Instruction) -> (r: Result<(), Abort>)
        requires
            cpu_wf(old(self)@),
        ensures
            cpu_wf(final(self)@),
            final(self)@ == op_lw_spec(old(self)@, instruction).0,
            matches_abort(r, op_lw_spec(old(self)@, instruction).1),
    {
        let address = self.register(instruction.rs()).wrapping_add(
            instruction.imm().sign_extend(),
        );
        if self.cache_is_isolated() {
            return Ok(());
        }
        if address % 4 != 0 {
            self.raise_exception(instruction, Exception::Adel);
            return Ok(());
        }
        let word = match self.bus.read_u32(address) {
            Ok(w) => w,
            Err(a) => {
                return Err(a);
            },
        };
        self.load_delay_register = Some((instruction.rt(), word));
        Ok(())
    }

    /// Opcode LWL: assemble the left part of an unaligned word load,
    /// merging with the target register's shadow value.
    pub fn op_lwl(&mut self, instruction: Instruction) -> (r: Result<(), Abort>)
        requires
            cpu_wf(old(self)@),
        ensures
            cpu_wf(final(self)@),
            final(self)@ == op_lwl_spec(old(self)@, instruction).0,
            matches_abort(r, op_lwl_spec(old(self)@, instruction).1),
    {
        let address = self.register(instruction.rs()).wrapping_add(
            instruction.imm().sign_extend(),
        );
        if self.cache_is_isolated() {
            return Ok(());
        }
        let rt = instruction.rt();
        let value = self.out_registers[rt.0 as usize];
        let aligned_address = address & !3u32;
        proof {
            lemma_word_aligned(address);
        }
        let aligned_word = match self.bus.read_u32(aligned_address) {
            Ok(w) => w,
            Err(a) => {
                return Err(a);
            },
        };
        let low_bits = address & 3;
        let result = if low_bits == 0 {
            (value & 0x00ffffff) | (aligned_word << 24)
        } else if low_bits == 1 {
            (value & 0x0000ffff) | (aligned_word << 16)
        } else if low_bits == 2 {
            (value & 0x000000ff) | (aligned_word << 8)
        } else {
            aligned_word
        };
        self.load_delay_register = Some((rt, result));
        Ok(())
    }

    /// Opcode LWR: assemble the right part of an unaligned word load,
    /// merging with the target register's shadow value.
    pub fn op_lwr(&mut self, instruction: Instruction) -> (r: Result<(), Abort>)
        requires
            cpu_wf(old(self)@),
        ensures
            cpu_wf(final(self)@),
            final(self)@ == op_lwr_spec(old(self)@, instruction).0,
            matches_abort(r, op_lwr_spec(old(self)@, instruction).1),
    {
        let address = self.register(instruction.rs()).wrapping_add(
            instruction.imm().sign_extend(),
        );
        if self.cache_is_isolated() {
            return Ok(());
        }
        let rt = instruction.rt();
        let value = self.out_registers[rt.0 as usize];
        let aligned_address = address & !3u32;
        proof {
            lemma_word_aligned(address);
        }
        let aligned_word = match self.bus.read_u32(aligned_address) {
            Ok(w) => w,
            Err(a) => {
                return Err(a);
            },
        };
        let low_bits = address & 3;
        let result = if low_bits == 0 {
            aligned_word
        } else if low_bits == 1 {
            (value & 0xff000000) | (aligned_word >> 8)
        } else if low_bits == 2 {
            (value & 0xffff0000) | (aligned_word >> 16)
        } else {
            (value & 0xffffff00) | (aligned_word >> 24)
        };
        self.load_delay_register = Some((rt, result));
        Ok(())
    }

    /// Opcode SB: store the register's low byte.
    pub fn op_sb(&mut self, instruction: Instruction) -> (r: Result<(), Abort>)
        requires
            cpu_wf(old(self)@),
        ensures
            cpu_wf(final(self)@),
            final(self)@ == op_sb_spec(old(self)@, instruction).0,
            matches_abort(r, op_sb_spec(old(self)@, instruction).1),
    {
        let t = self.register(instruction.rt());
        let address = self.register(instruction.rs()).wrapping_add(
            instruction.imm().sign_extend(),
        );
        if self.cache_is_isolated() {
            return Ok(());
        }
        self.bus.write_u8(address, t as u8)
    }

    /// Opcode SH: store the register's low half-word; an odd address raises
    /// the store address-error exception and stores nothing.
    pub fn op_sh(&mut self, instruction: Instruction) -> (r: Result<(), Abort>)
        requires
            cpu_wf(old(self)@),
        ensures
            cpu_wf(final(self)@),
            final(self)@ == op_sh_spec(old(self)@, instruction).0,
            matches_abort(r, op_sh_spec(old(self)@, instruction).1),
    {
        let t = self.register(instruction.rt());
        let address = self.register(instruction.rs()).wrapping_add(
            instruction.imm().sign_extend(),
        );
        if self.cache_is_isolated() {
            return Ok(());
        }
        if address % 2 != 0 {
            self.raise_exception(instruction, Exception::Ades);
            return Ok(());
        }
        self.bus.write_u16(address, t as u16)
    }

    /// Opcode SW: store the register; an address off the word grid raises
    /// the store address-error exception and mutates no memory.
    pub fn op_sw(&mut self, instruction: Instruction) -> (r: Result<(), Abort>)
        requires
            cpu_wf(old(self)@),
        ensures
            cpu_wf(final(self)@),
            final(self)@ == op_sw_spec(old(self)@, instruction).0,
            matches_abort(r, op_sw_spec(old(self)@, instruction).1),
    {
        let t = self.register(instruction.rt());
        let address = self.register(instruction.rs()).wrapping_add(
            instruction.imm().sign_extend(),
        );
        if self.cache_is_isolated() {
            return Ok(());
        }
        if address % 4 != 0 {
            self.raise_exception(instruction, Exception::Ades);
            return Ok(());
        }
        self.bus.write_u32(address, t)
    }

    /// Opcode SWL: store the left part of an unaligned word, merging with
    /// the memory word.
    pub fn op_swl(&mut self, instruction: Instruction) -> (r: Result<(), Abort>)
        requires
            cpu_wf(old(self)@),
        ensures
            cpu_wf(final(self)@),
            final(self)@ == op_swl_spec(old(self)@, instruction).0,
            matches_abort(r, op_swl_spec(old(self)@, instruction).1),
    {
        let t = self.register(instruction.rt());
        let address = self.register(instruction.rs()).wrapping_add(
            instruction.imm().sign_extend(),
        );
        if self.cache_is_isolated() {
            return Ok(());
        }
        let aligned_address = address & !3u32;
        proof {
            lemma_word_aligned(address);
        }
        let memory = match self.bus.read_u32(aligned_address) {
            Ok(w) => w,
            Err(a) => {
                return Err(a);
            },
        };
        let low_bits = address & 3;
        let result = if low_bits == 0 {
            (memory & 0xffffff00) | (t >> 24)
        } else if low_bits == 1 {
            (memory & 0xffff0000) | (t >> 16)
        } else if low_bits == 2 {
            (memory & 0xff000000) | (t >> 8)
        } else {
            t
        };
        self.bus.write_u32(aligned_address, result)
    }

    /// Opcode SWR: store the right part of an unaligned word, merging with
    /// the memory word.
    pub fn op_swr(&mut self, instruction: Instruction) -> (r: Result<(), Abort>)
        requires
            cpu_wf(old(self)@),
        ensures
            cpu_wf(final(self)@),
            final(self)@ == op_swr_spec(old(self)@, instruction).0,
            matches_abort(r, op_swr_spec(old(self)@, instruction).1),
    {
        let t = self.register(instruction.rt());
        let address = self.register(instruction.rs()).wrapping_add(
            instruction.imm().sign_extend(),
        );
        if self.cache_is_isolated() {
            return Ok(());
        }
        let aligned_address = address & !3u32;
        proof {
            lemma_word_aligned(address);
        }
        let memory = match self.bus.read_u32(aligned_address) {
            Ok(w) => w,
            Err(a) => {
                return Err(a);
            },
        };
        let low_bits = address & 3;
        let result = if low_bits == 0 {
            t
        } else if low_bits == 1 {
            (memory & 0x000000ff) | (t << 8)
        } else if low_bits == 2 {
            (memory & 0x0000ffff) | (t << 16)
        } else {
            (memory & 0x00ffffff) | (t << 24)
        };
        self.bus.write_u32(aligned_address, result)
    }
}

} // verus!
