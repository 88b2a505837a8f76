//! The laws of the core, proved once and for all over the same spec
//! functions that the executable contracts use: the wired-zero register,
//! little-endian word assembly and the store-load round trip, the branch
//! and load delay slots, the exception boundaries of the arithmetic and
//! memory instructions, and the divide identities.

use vstd::prelude::*;

use crate::abort::Abort;
use crate::bus::{bus_read16_spec, bus_read32_spec, bus_read8_spec, bus_wf, bus_write32_spec, spec_mask_address, BusView, RAM_LENGTH, RAM_START};
use crate::cpu::{cache_isolated, cpu_set_register, cpu_wf, execute_spec, pre_execute_spec, promote_spec, raise_exception_spec, reg_of, set_reg, step_spec, CpuView};
use crate::cpu_mem::{effective_address, op_lw_spec, op_sb_spec, op_sh_spec, op_sw_spec, op_swl_spec, op_swr_spec};
use crate::cpu_ops::op_lui_spec;
use crate::cpu_special::{op_add_spec, op_div_spec, op_divu_spec, op_or_spec};
use crate::cpu_cop::{op_mfc0_spec, op_mtc0_spec};
use crate::exception::{exception_code, Exception};
use crate::instruction::{spec_cop_rd, spec_imm, spec_op, spec_rd, spec_rs, spec_rt, spec_target, Instruction, RegisterIndex};
use crate::mem::RAM_SIZE;
use crate::range::range_contains;
use crate::words::lemma_word_bytes_roundtrip;

verus! {

/// Register zero is wired to zero: it reads as zero in every well-formed
/// state, and a write to it changes nothing.
pub proof fn lemma_register_zero(c: CpuView, value: u32)
    requires
        cpu_wf(c),
    ensures
        reg_of(c, 0) == 0,
        cpu_set_register(c, RegisterIndex(0), value) == c,
{
}

/// A word read assembles exactly its four bytes in little-endian address
/// order: the byte at the address is least significant.
pub proof fn lemma_word_read_combines_bytes(
    b: BusView,
    address: u32,
    b0: u8,
    b1: u8,
    b2: u8,
    b3: u8,
)
    requires
        address % 4 == 0,
        bus_read8_spec(b, address) == Ok::<u8, Abort>(b0),
        bus_read8_spec(b, (address + 1) as u32) == Ok::<u8, Abort>(b1),
        bus_read8_spec(b, (address + 2) as u32) == Ok::<u8, Abort>(b2),
        bus_read8_spec(b, (address + 3) as u32) == Ok::<u8, Abort>(b3),
    ensures
        bus_read32_spec(b, address) == Ok::<u32, Abort>(
            ((b3 as u32) << 24) | ((b2 as u32) << 16) | ((b1 as u32) << 8) | (b0 as u32),
        ),
{
}

/// A half-word read assembles exactly its two bytes in little-endian
/// address order.
pub proof fn lemma_half_read_combines_bytes(b: BusView, address: u32, b0: u8, b1: u8)
    requires
        address % 2 == 0,
        bus_read8_spec(b, address) == Ok::<u8, Abort>(b0),
        bus_read8_spec(b, (address + 1) as u32) == Ok::<u8, Abort>(b1),
    ensures
        bus_read16_spec(b, address) == Ok::<u16, Abort>(((b1 as u16) << 8) | (b0 as u16)),
{
}

/// A word-aligned address mapped to RAM stays word-like under the region
/// masks and the RAM mirror: its three successors mask to the successors of
/// its physical address, and the mirrored offsets advance byte by byte
/// inside the array.
proof fn lemma_ram_word_addresses(address: u32)
    requires
        address % 4 == 0,
        spec_mask_address(address) < 0x1f000000,
    ensures
        address + 3 <= u32::MAX,
        spec_mask_address((address + 1) as u32) == spec_mask_address(address) + 1,
        spec_mask_address((address + 2) as u32) == spec_mask_address(address) + 2,
        spec_mask_address((address + 3) as u32) == spec_mask_address(address) + 3,
        spec_mask_address(address) + 3 < 0x1f000000,
        (spec_mask_address(address) % (RAM_SIZE as u32)) + 3 < RAM_SIZE,
        ((spec_mask_address(address) + 1) as u32) % (RAM_SIZE as u32) == (spec_mask_address(
            address,
        ) % (RAM_SIZE as u32)) + 1,
        ((spec_mask_address(address) + 2) as u32) % (RAM_SIZE as u32) == (spec_mask_address(
            address,
        ) % (RAM_SIZE as u32)) + 2,
        ((spec_mask_address(address) + 3) as u32) % (RAM_SIZE as u32) == (spec_mask_address(
            address,
        ) % (RAM_SIZE as u32)) + 3,
{
    assert((address % 4 == 0 && spec_mask_address(address) < 0x1f000000) ==> (address + 3
        <= 0xffffffff && spec_mask_address((address + 1) as u32) == spec_mask_address(address) + 1
        && spec_mask_address((address + 2) as u32) == spec_mask_address(address) + 2
        && spec_mask_address((address + 3) as u32) == spec_mask_address(address) + 3
        && spec_mask_address(address) + 3 < 0x1f000000 && (spec_mask_address(address)
        % 0x200000u32) + 3 < 0x200000 && ((spec_mask_address(address) + 1) as u32) % 0x200000u32
        == (spec_mask_address(address) % 0x200000u32) + 1 && ((spec_mask_address(address)
        + 2) as u32) % 0x200000u32 == (spec_mask_address(address) % 0x200000u32) + 2 && ((
    spec_mask_address(address) + 3) as u32) % 0x200000u32 == (spec_mask_address(address)
        % 0x200000u32) + 3)) by (bit_vector);
}

/// After a word store to a 4-aligned address mapped to RAM, a word read at
/// the same address returns the stored value.
#[verifier::rlimit(100)]
pub proof fn lemma_word_store_then_load(b: BusView, address: u32, value: u32)
    requires
        bus_wf(b),
        address % 4 == 0,
        range_contains(RAM_START, RAM_LENGTH, spec_mask_address(address)),
    ensures
        bus_write32_spec(b, address, value).1 is None,
        bus_read32_spec(bus_write32_spec(b, address, value).0, address) == Ok::<u32, Abort>(value),
{
    lemma_ram_word_addresses(address);
    lemma_word_bytes_roundtrip(value);
}

/// A pending branch is consumed by the very next step: the instruction at
/// the following address is still fetched, but it executes with the program
/// counter already at the branch target, and the pending slot is drained.
pub proof fn lemma_branch_delay_slot(c: CpuView, target: u32, word: u32)
    requires
        cpu_wf(c),
        c.branch_delay == Some(target),
        c.pc % 4 == 0,
        bus_read32_spec(c.bus, c.pc) == Ok::<u32, Abort>(word),
    ensures
        pre_execute_spec(c).pc == target,
        pre_execute_spec(c).branch_delay is None,
        pre_execute_spec(c).registers == c.registers,
        step_spec(c) == ({
            let (c2, abort) = execute_spec(pre_execute_spec(c), Instruction(word, c.pc));
            match abort {
                Some(a) => (c2, Some(a)),
                None => (promote_spec(c2), None::<Abort>),
            }
        }),
{
    reveal(step_spec);
}

/// A taken jump sets the pending branch and nothing more: the step after a
/// J instruction leaves the program counter one instruction further and the
/// jump target pending, so exactly one more instruction runs before the
/// target takes effect.
pub proof fn lemma_taken_jump_sets_pending(c: CpuView, word: u32)
    requires
        cpu_wf(c),
        c.pc % 4 == 0,
        c.branch_delay is None,
        c.load_delay is None,
        bus_read32_spec(c.bus, c.pc) == Ok::<u32, Abort>(word),
        spec_op(word) == 0x02,
    ensures
        step_spec(c).1 is None,
        step_spec(c).0.pc == c.pc.wrapping_add(4),
        step_spec(c).0.branch_delay == Some(
            (spec_target(word) << 2) | (c.pc.wrapping_add(4) & 0xf0000000),
        ),
{
    reveal(step_spec);
    reveal(execute_spec);
}

/// A taken conditional branch pends its target the same way: a step over a
/// BEQ whose operands are equal leaves the program counter one instruction
/// further and the displaced target pending.
pub proof fn lemma_taken_branch_sets_pending(c: CpuView, word: u32)
    requires
        cpu_wf(c),
        c.pc % 4 == 0,
        c.branch_delay is None,
        c.load_delay is None,
        bus_read32_spec(c.bus, c.pc) == Ok::<u32, Abort>(word),
        spec_op(word) == 0x04,
        reg_of(c, spec_rs(word)) == reg_of(c, spec_rt(word)),
    ensures
        step_spec(c).1 is None,
        step_spec(c).0.pc == c.pc.wrapping_add(4),
        step_spec(c).0.branch_delay == Some(
            c.pc.wrapping_add(4).wrapping_add((spec_imm(word) as i16 as u32) << 2),
        ),
{
    reveal(step_spec);
    reveal(execute_spec);
}

/// A pending load lands in the shadow register before the next instruction
/// executes, while the visible register file still reads every prior value:
/// the loaded value becomes visible only once that instruction's step
/// promotes the shadow file.
pub proof fn lemma_load_delay_slot(c: CpuView, register: RegisterIndex, value: u32)
    requires
        cpu_wf(c),
        c.load_delay == Some((register, value)),
        register.0 != 0,
    ensures
        pre_execute_spec(c).out_registers[register.0 as int] == value,
        pre_execute_spec(c).registers == c.registers,
        pre_execute_spec(c).load_delay is None,
        promote_spec(pre_execute_spec(c)).registers[register.0 as int] == value,
{
}

/// An instruction's own register write outruns a pending load into the
/// same register: applying the load first and the write second leaves
/// exactly the written value.
pub proof fn lemma_register_write_wins(regs: Seq<u32>, index: u8, pending: u32, written: u32)
    requires
        regs.len() == 32,
        index < 32,
    ensures
        set_reg(set_reg(regs, index, pending), index, written) == set_reg(regs, index, written),
{
    if index != 0 {
        assert(set_reg(set_reg(regs, index, pending), index, written) =~= set_reg(
            regs,
            index,
            written,
        ));
    }
}

/// A value moved to any coprocessor-0 register is exactly what a later
/// move from that register reads back.
pub proof fn lemma_cop0_write_then_read(c: CpuView, write: Instruction, read: Instruction)
    requires
        cpu_wf(c),
        spec_cop_rd(write.0) == spec_cop_rd(read.0),
        spec_rt(read.0) != 0,
    ensures
        op_mtc0_spec(c, write).cop0[spec_cop_rd(write.0) as int] == reg_of(c, spec_rt(write.0)),
        op_mfc0_spec(op_mtc0_spec(c, write), read).out_registers[spec_rt(read.0) as int] == reg_of(
            c,
            spec_rt(write.0),
        ),
{
    crate::instruction::lemma_decode_fields_in_range(write.0);
    crate::instruction::lemma_decode_fields_in_range(read.0);
}

/// ADD on operands whose signed sum overflows raises the overflow
/// exception, writes the overflow code into CAUSE, and leaves every
/// register of both files unchanged.
pub proof fn lemma_add_overflow(c: CpuView, instruction: Instruction)
    requires
        cpu_wf(c),
        (reg_of(c, spec_rs(instruction.0)) as i32) + (reg_of(c, spec_rt(instruction.0)) as i32)
            > i32::MAX || (reg_of(c, spec_rs(instruction.0)) as i32) + (reg_of(
            c,
            spec_rt(instruction.0),
        ) as i32) < i32::MIN,
    ensures
        op_add_spec(c, instruction) == raise_exception_spec(c, instruction, Exception::Ov),
        op_add_spec(c, instruction).registers == c.registers,
        op_add_spec(c, instruction).out_registers == c.out_registers,
        (op_add_spec(c, instruction).cop0[13] >> 2) & 0x1f == exception_code(Exception::Ov),
{
    let c2 = raise_exception_spec(c, instruction, Exception::Ov);
    let cause0 = c.cop0[13];
    let bd_bit: u32 = if instruction.1 != c.pc.wrapping_sub(4) {
        1u32 << 31
    } else {
        0u32
    };
    assert(((((cause0 & !(0x1fu32 << 2) & !(1u32 << 31)) | (0x0cu32 << 2) | bd_bit) >> 2) & 0x1f)
        == 0x0c) by (bit_vector)
        requires
            bd_bit == 1u32 << 31 || bd_bit == 0u32,
    ;
}

/// LUI leaves exactly the immediate shifted into the upper half-word in the
/// target register's shadow slot.
pub proof fn lemma_lui(c: CpuView, instruction: Instruction)
    requires
        cpu_wf(c),
        spec_rt(instruction.0) != 0,
    ensures
        op_lui_spec(c, instruction).out_registers[spec_rt(instruction.0) as int] == (spec_imm(
            instruction.0,
        ) as u32) << 16,
{
    crate::instruction::lemma_decode_fields_in_range(instruction.0);
}

/// Sign-extending a 16-bit immediate and masking back to the low 16 bits
/// is the identity on those bits.
pub proof fn lemma_sign_extend_keeps_low_bits(imm: u16)
    ensures
        (imm as i16 as u32) & 0xffff == imm as u32,
{
    assert((imm as i16 as u32) & 0xffff == imm as u32) by (bit_vector);
}

/// OR is commutative: the instruction writes the same destination value
/// when its two source registers are swapped.
pub proof fn lemma_or_commutes(c: CpuView, first: Instruction, second: Instruction)
    requires
        cpu_wf(c),
        spec_rs(first.0) == spec_rt(second.0),
        spec_rt(first.0) == spec_rs(second.0),
        spec_rd(first.0) == spec_rd(second.0),
    ensures
        op_or_spec(c, first) == op_or_spec(c, second),
{
    let a = reg_of(c, spec_rs(first.0));
    let b = reg_of(c, spec_rt(first.0));
    assert(a | b == b | a) by (bit_vector);
}

/// The signed divide obeys the division identity: for a nonzero divisor,
/// away from the one overflowing quotient, the quotient times the divisor
/// plus the remainder gives back the dividend, all read as signed values.
pub proof fn lemma_div_identity(c: CpuView, instruction: Instruction)
    requires
        cpu_wf(c),
        reg_of(c, spec_rt(instruction.0)) as i32 != 0,
        !(reg_of(c, spec_rs(instruction.0)) == 0x80000000 && reg_of(
            c,
            spec_rt(instruction.0),
        ) as i32 == -1),
    ensures
        ({
            let c2 = op_div_spec(c, instruction);
            (c2.lo as i32) * (reg_of(c, spec_rt(instruction.0)) as i32) + (c2.hi as i32) == reg_of(
                c,
                spec_rs(instruction.0),
            ) as i32
        }),
{
    let sreg = reg_of(c, spec_rs(instruction.0));
    let s = sreg as i32;
    let t = reg_of(c, spec_rt(instruction.0)) as i32;
    assert((s as u32 == 0x80000000u32) == (sreg == 0x80000000u32) && (s == -0x80000000i32) == (
    sreg == 0x80000000u32)) by (bit_vector)
        requires
            s == sreg as i32,
    ;
    let x = s as int;
    let d = t as int;
    lemma_div_magnitudes(x, d);
    let q = div_toward_zero(x, d);
    let r = rem_toward_zero(x, d);
    let c2 = op_div_spec(c, instruction);
    if !(s as u32 == 0x80000000 && t == -1) {
        assert(c2.lo == (q as i32) as u32 && c2.hi == (r as i32) as u32);
        let qi = q as i32;
        let ri = r as i32;
        assert((qi as u32) as i32 == qi && (ri as u32) as i32 == ri) by (bit_vector);
    }
}

/// The quotient toward zero, as the divide instruction computes it.
pub open spec fn div_toward_zero(x: int, d: int) -> int {
    if x == 0 {
        0
    } else if x > 0 && d > 0 {
        x / d
    } else if x < 0 && d < 0 {
        (x * -1) / (d * -1)
    } else if x < 0 {
        ((x * -1) / d) * -1
    } else {
        (x / (d * -1)) * -1
    }
}

/// The remainder toward zero, with the dividend's sign.
pub open spec fn rem_toward_zero(x: int, d: int) -> int {
    if x == 0 {
        0
    } else if x > 0 && d > 0 {
        x % d
    } else if x < 0 && d < 0 {
        ((x * -1) % (d * -1)) * -1
    } else if x < 0 {
        ((x * -1) % d) * -1
    } else {
        x % (d * -1)
    }
}

/// Truncating division and its remainder rebuild the dividend, and both
/// stay within the signed word.
proof fn lemma_div_magnitudes(x: int, d: int)
    requires
        -0x80000000 <= x <= 0x7fffffff,
        -0x80000000 <= d <= 0x7fffffff,
        d != 0,
        !(x == -0x80000000 && d == -1),
    ensures
        div_toward_zero(x, d) * d + rem_toward_zero(x, d) == x,
        -0x80000000 <= div_toward_zero(x, d) <= 0x7fffffff,
        -0x80000000 <= rem_toward_zero(x, d) <= 0x7fffffff,
{
    if x != 0 {
        let xa = if x < 0 {
            x * -1
        } else {
            x
        };
        let da = if d < 0 {
            d * -1
        } else {
            d
        };
        vstd::arithmetic::div_mod::lemma_fundamental_div_mod(xa, da);
        vstd::arithmetic::div_mod::lemma_mod_division_less_than_divisor(xa, da);
        vstd::arithmetic::div_mod::lemma_div_pos_is_pos(xa, da);
        let qa = xa / da;
        let ra = xa % da;
        assert(xa == da * qa + ra);
        assert(0 <= ra < da);
        if da == 1 {
            vstd::arithmetic::div_mod::lemma_div_basics(xa);
            assert(qa == xa && ra == 0);
        } else {
            vstd::arithmetic::div_mod::lemma_div_decreases(xa, da);
            assert(qa < xa);
        }
        assert(div_toward_zero(x, d) * d + rem_toward_zero(x, d) == x) by (nonlinear_arith)
            requires
                xa == da * qa + ra,
                (x >= 0 ==> xa == x) && (x < 0 ==> xa == x * -1),
                (d >= 0 ==> da == d) && (d < 0 ==> da == d * -1),
                x != 0,
                d != 0,
                div_toward_zero(x, d) == (if x > 0 && d > 0 {
                    qa
                } else if x < 0 && d < 0 {
                    qa
                } else {
                    qa * -1
                }),
                rem_toward_zero(x, d) == (if x > 0 {
                    ra
                } else {
                    ra * -1
                }),
        ;
    }
}

/// A word load from an address off the word grid raises the load
/// address-error exception, is no abort, and mutates no register of either
/// file, no pending load, and no memory.
pub proof fn lemma_unaligned_load_word(c: CpuView, instruction: Instruction)
    requires
        cpu_wf(c),
        !cache_isolated(c),
        effective_address(c, instruction.0) % 4 != 0,
    ensures
        op_lw_spec(c, instruction).1 is None,
        op_lw_spec(c, instruction).0 == raise_exception_spec(c, instruction, Exception::Adel),
        op_lw_spec(c, instruction).0.registers == c.registers,
        op_lw_spec(c, instruction).0.out_registers == c.out_registers,
        op_lw_spec(c, instruction).0.load_delay == c.load_delay,
        op_lw_spec(c, instruction).0.bus == c.bus,
{
}

/// A word store to an address off the word grid raises the store
/// address-error exception, is no abort, and mutates no memory.
pub proof fn lemma_unaligned_store_word(c: CpuView, instruction: Instruction)
    requires
        cpu_wf(c),
        !cache_isolated(c),
        effective_address(c, instruction.0) % 4 != 0,
    ensures
        op_sw_spec(c, instruction).1 is None,
        op_sw_spec(c, instruction).0 == raise_exception_spec(c, instruction, Exception::Ades),
        op_sw_spec(c, instruction).0.bus == c.bus,
{
}

/// A divide by zero leaves the dividend in HI and, for the signed divide,
/// all-ones or one in LO by the dividend's sign; the unsigned divide leaves
/// all-ones.
pub proof fn lemma_divide_by_zero(c: CpuView, instruction: Instruction)
    requires
        cpu_wf(c),
        reg_of(c, spec_rt(instruction.0)) == 0,
    ensures
        op_div_spec(c, instruction).hi == reg_of(c, spec_rs(instruction.0)),
        (reg_of(c, spec_rs(instruction.0)) as i32) >= 0 ==> op_div_spec(c, instruction).lo
            == 0xffffffffu32,
        (reg_of(c, spec_rs(instruction.0)) as i32) < 0 ==> op_div_spec(c, instruction).lo == 1,
        op_divu_spec(c, instruction).hi == reg_of(c, spec_rs(instruction.0)),
        op_divu_spec(c, instruction).lo == 0xffffffffu32,
{
    let sreg = reg_of(c, spec_rs(instruction.0));
    let s = sreg as i32;
    assert((s as u32) == sreg) by (bit_vector)
        requires
            s == sreg as i32,
    ;
}

/// While the cache is isolated, no store of any width touches the bus: RAM
/// and every device keep their contents, and nothing aborts.
pub proof fn lemma_isolated_stores_leave_memory(c: CpuView, instruction: Instruction)
    requires
        cpu_wf(c),
        cache_isolated(c),
    ensures
        op_sb_spec(c, instruction) == (c, None::<Abort>),
        op_sh_spec(c, instruction) == (c, None::<Abort>),
        op_sw_spec(c, instruction) == (c, None::<Abort>),
        op_swl_spec(c, instruction) == (c, None::<Abort>),
        op_swr_spec(c, instruction) == (c, None::<Abort>),
{
}

} // verus!
