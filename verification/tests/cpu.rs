//! Instruction-level behavior: the wired-zero register, the arithmetic
//! exceptions, the divide fixups and identity, the coprocessor-0 file, and
//! the unaligned access exceptions.

use psx_core::instruction::{CopRegisterIndex, Instruction, RegisterIndex};
use psx_core::mem::BIOS_SIZE;
use psx_core::psx::Psx;
use psx_core::words::{SextExt, ZextExt};

fn cpu_bios(words: &[u32]) -> Vec<u8> {
    let mut data = vec![0u8; BIOS_SIZE];
    for (i, word) in words.iter().enumerate() {
        data[i * 4..i * 4 + 4].copy_from_slice(&word.to_le_bytes());
    }
    data
}

fn fresh_psx(words: &[u32]) -> Psx {
    Psx::new(cpu_bios(words))
}

#[test]
fn register_zero_reads_zero_and_absorbs_writes() {
    let mut psx = fresh_psx(&[]);
    assert_eq!(psx.cpu.register(RegisterIndex(0)), 0);
    psx.cpu.set_register(RegisterIndex(0), 0x1234);
    assert_eq!(psx.cpu.out_registers[0], 0);
    // ADDIU $0, $0, 5 must leave register zero untouched after a step.
    let mut psx = fresh_psx(&[0x2400_0005]);
    assert!(psx.cpu.step().is_ok());
    assert_eq!(psx.cpu.registers[0], 0);
}

#[test]
fn lui_shifts_immediate() {
    // LUI $1, 0x1234
    let mut psx = fresh_psx(&[0x3c01_1234]);
    assert!(psx.cpu.step().is_ok());
    assert_eq!(psx.cpu.registers[1], 0x1234_0000);
}

#[test]
fn add_overflow_raises_and_keeps_destination() {
    // ADD $3, $1, $2 on (0x7fffffff, 1)
    let word = (1u32 << 21) | (2 << 16) | (3 << 11) | 0x20;
    let mut psx = fresh_psx(&[word]);
    psx.cpu.registers[1] = 0x7fff_ffff;
    psx.cpu.registers[2] = 1;
    psx.cpu.out_registers[1] = 0x7fff_ffff;
    psx.cpu.out_registers[2] = 1;
    psx.cpu.registers[3] = 0x5555_5555;
    psx.cpu.out_registers[3] = 0x5555_5555;
    assert!(psx.cpu.step().is_ok());
    assert_eq!(psx.cpu.registers[3], 0x5555_5555);
    assert_eq!((psx.cpu.cop0_registers[13] >> 2) & 0x1f, 0x0c);
    assert_eq!(psx.cpu.cop0_registers[14], 0xbfc0_0000);
    assert_eq!(psx.cpu.pc, 0x8000_0080);
}

#[test]
fn addi_overflow_raises() {
    // ADDI $2, $1, 1 on 0x7fffffff
    let mut psx = fresh_psx(&[0x2022_0001]);
    psx.cpu.registers[1] = 0x7fff_ffff;
    psx.cpu.out_registers[1] = 0x7fff_ffff;
    assert!(psx.cpu.step().is_ok());
    assert_eq!(psx.cpu.registers[2], 0);
    assert_eq!((psx.cpu.cop0_registers[13] >> 2) & 0x1f, 0x0c);
}

#[test]
fn addiu_wraps() {
    // ADDIU $2, $1, 1 on 0xffffffff
    let mut psx = fresh_psx(&[0x2422_0001]);
    psx.cpu.registers[1] = 0xffff_ffff;
    psx.cpu.out_registers[1] = 0xffff_ffff;
    assert!(psx.cpu.step().is_ok());
    assert_eq!(psx.cpu.registers[2], 0);
}

#[test]
fn div_truncates_toward_zero() {
    // DIV $1, $2 with 7 / -2: quotient -3, remainder 1.
    let word = (1u32 << 21) | (2 << 16) | 0x1a;
    let mut psx = fresh_psx(&[word]);
    psx.cpu.registers[1] = 7;
    psx.cpu.registers[2] = (-2i32) as u32;
    psx.cpu.out_registers[1] = 7;
    psx.cpu.out_registers[2] = (-2i32) as u32;
    assert!(psx.cpu.step().is_ok());
    assert_eq!(psx.cpu.lo, (-3i32) as u32);
    assert_eq!(psx.cpu.hi, 1);
    // The division identity on these values: LO * t + HI == s.
    assert_eq!((psx.cpu.lo as i32) * -2 + psx.cpu.hi as i32, 7);
}

#[test]
fn div_by_zero_fixups() {
    let word = (1u32 << 21) | (2 << 16) | 0x1a;
    let mut psx = fresh_psx(&[word]);
    psx.cpu.registers[1] = 5;
    psx.cpu.out_registers[1] = 5;
    assert!(psx.cpu.step().is_ok());
    assert_eq!(psx.cpu.lo, 0xffff_ffff);
    assert_eq!(psx.cpu.hi, 5);

    let mut psx = fresh_psx(&[word]);
    psx.cpu.registers[1] = (-5i32) as u32;
    psx.cpu.out_registers[1] = (-5i32) as u32;
    assert!(psx.cpu.step().is_ok());
    assert_eq!(psx.cpu.lo, 1);
    assert_eq!(psx.cpu.hi, (-5i32) as u32);
}

#[test]
fn div_overflow_fixup() {
    let word = (1u32 << 21) | (2 << 16) | 0x1a;
    let mut psx = fresh_psx(&[word]);
    psx.cpu.registers[1] = 0x8000_0000;
    psx.cpu.registers[2] = 0xffff_ffff;
    psx.cpu.out_registers[1] = 0x8000_0000;
    psx.cpu.out_registers[2] = 0xffff_ffff;
    assert!(psx.cpu.step().is_ok());
    assert_eq!(psx.cpu.lo, 0x8000_0000);
    assert_eq!(psx.cpu.hi, 0);
}

#[test]
fn divu_by_zero_fixup() {
    let word = (1u32 << 21) | (2 << 16) | 0x1b;
    let mut psx = fresh_psx(&[word]);
    psx.cpu.registers[1] = 9;
    psx.cpu.out_registers[1] = 9;
    assert!(psx.cpu.step().is_ok());
    assert_eq!(psx.cpu.lo, 0xffff_ffff);
    assert_eq!(psx.cpu.hi, 9);
}

#[test]
fn mult_splits_product() {
    // MULT $1, $2 with -3 * 5 = -15: HI all ones, LO the low word.
    let word = (1u32 << 21) | (2 << 16) | 0x18;
    let mut psx = fresh_psx(&[word]);
    psx.cpu.registers[1] = (-3i32) as u32;
    psx.cpu.registers[2] = 5;
    psx.cpu.out_registers[1] = (-3i32) as u32;
    psx.cpu.out_registers[2] = 5;
    assert!(psx.cpu.step().is_ok());
    assert_eq!(psx.cpu.lo, (-15i64) as u64 as u32);
    assert_eq!(psx.cpu.hi, ((-15i64) as u64 >> 32) as u32);
}

#[test]
fn or_is_commutative_under_swap() {
    let a = 0x1234_0f0f;
    let b = 0x00ff_f000;
    // OR $3, $1, $2 and OR $3, $2, $1
    let first = (1u32 << 21) | (2 << 16) | (3 << 11) | 0x25;
    let second = (2u32 << 21) | (1 << 16) | (3 << 11) | 0x25;
    let mut p1 = fresh_psx(&[first]);
    p1.cpu.registers[1] = a;
    p1.cpu.registers[2] = b;
    assert!(p1.cpu.step().is_ok());
    let mut p2 = fresh_psx(&[second]);
    p2.cpu.registers[1] = a;
    p2.cpu.registers[2] = b;
    assert!(p2.cpu.step().is_ok());
    assert_eq!(p1.cpu.registers[3], p2.cpu.registers[3]);
    assert_eq!(p1.cpu.registers[3], a | b);
}

#[test]
fn sign_extension_keeps_low_bits() {
    assert_eq!(0x8000u16.sign_extend(), 0xffff_8000);
    assert_eq!(0x8000u16.sign_extend() & 0xffff, 0x8000);
    assert_eq!(0x7fffu16.sign_extend(), 0x7fff);
    assert_eq!(0xffu8.sign_extend(), 0xffff);
    assert_eq!(0xffu8.zero_extend(), 0x00ff);
    assert_eq!(0x8000u16.zero_extend(), 0x8000);
}

#[test]
fn shifts_behave() {
    // SLL $2, $1, 4 ; SRL $3, $1, 4 ; SRA $4, $1, 4
    let sll = (1u32 << 16) | (2 << 11) | (4 << 6);
    let srl = (1u32 << 16) | (3 << 11) | (4 << 6) | 0x02;
    let sra = (1u32 << 16) | (4 << 11) | (4 << 6) | 0x03;
    let mut psx = fresh_psx(&[sll, srl, sra]);
    psx.cpu.registers[1] = 0x8000_00f0;
    psx.cpu.out_registers[1] = 0x8000_00f0;
    assert!(psx.run_steps(3).is_ok());
    assert_eq!(psx.cpu.registers[2], 0x0000_0f00);
    assert_eq!(psx.cpu.registers[3], 0x0800_000f);
    assert_eq!(psx.cpu.registers[4], 0xf800_000f);
}

#[test]
fn set_on_less_than_signed_and_unsigned() {
    // SLT $3, $1, $2 and SLTU $4, $1, $2 with $1 = -1, $2 = 1.
    let slt = (1u32 << 21) | (2 << 16) | (3 << 11) | 0x2a;
    let sltu = (1u32 << 21) | (2 << 16) | (4 << 11) | 0x2b;
    let mut psx = fresh_psx(&[slt, sltu]);
    psx.cpu.registers[1] = 0xffff_ffff;
    psx.cpu.registers[2] = 1;
    psx.cpu.out_registers[1] = 0xffff_ffff;
    psx.cpu.out_registers[2] = 1;
    assert!(psx.run_steps(2).is_ok());
    assert_eq!(psx.cpu.registers[3], 1);
    assert_eq!(psx.cpu.registers[4], 0);
}

#[test]
fn unaligned_load_word_raises_adel() {
    // LW $1, 1($0)
    let mut psx = fresh_psx(&[0x8c01_0001]);
    assert!(psx.cpu.step().is_ok());
    assert_eq!((psx.cpu.cop0_registers[13] >> 2) & 0x1f, 0x04);
    assert_eq!(psx.cpu.pc, 0x8000_0080);
    for i in 0..32 {
        assert_eq!(psx.cpu.registers[i], 0);
    }
}

#[test]
fn unaligned_store_word_raises_ades() {
    // SW $1, 1($0) with $1 holding a marker: memory must keep its zeroes.
    let mut psx = fresh_psx(&[0xac01_0001]);
    psx.cpu.registers[1] = 0xdead_beef;
    psx.cpu.out_registers[1] = 0xdead_beef;
    assert!(psx.cpu.step().is_ok());
    assert_eq!((psx.cpu.cop0_registers[13] >> 2) & 0x1f, 0x05);
    assert_eq!(psx.cpu.bus.read_u32(0), Ok(0));
    assert_eq!(psx.cpu.bus.read_u32(4), Ok(0));
}

#[test]
fn unaligned_halfword_raises() {
    // LH $1, 1($0) and SH $1, 1($0)
    let mut psx = fresh_psx(&[0x8401_0001]);
    assert!(psx.cpu.step().is_ok());
    assert_eq!((psx.cpu.cop0_registers[13] >> 2) & 0x1f, 0x04);
    let mut psx = fresh_psx(&[0xa401_0001]);
    assert!(psx.cpu.step().is_ok());
    assert_eq!((psx.cpu.cop0_registers[13] >> 2) & 0x1f, 0x05);
}

#[test]
fn cop0_registers_round_trip() {
    for index in [3u8, 5, 6, 7, 8, 9, 11, 12, 13, 14, 15] {
        let mut psx = fresh_psx(&[]);
        psx.cpu.registers[1] = 0xabcd_0123;
        // MTC0 $1, cop[index] then MFC0 $2, cop[index], executed directly.
        let mtc0 = Instruction(
            (0x10u32 << 26) | (0x04 << 21) | (1 << 16) | ((index as u32) << 11),
            0,
        );
        let mfc0 = Instruction(
            (0x10u32 << 26) | (2 << 16) | ((index as u32) << 11),
            0,
        );
        psx.cpu.op_mtc0(mtc0);
        assert_eq!(psx.cpu.cop0_register(CopRegisterIndex(index)), 0xabcd_0123);
        psx.cpu.op_mfc0(mfc0);
        assert_eq!(psx.cpu.out_registers[2], 0xabcd_0123);
    }
}

#[test]
fn syscall_dispatches_exception() {
    let mut psx = fresh_psx(&[0x0000_000c]);
    assert!(psx.cpu.step().is_ok());
    assert_eq!((psx.cpu.cop0_registers[13] >> 2) & 0x1f, 0x08);
    assert_eq!(psx.cpu.cop0_registers[14], 0xbfc0_0000);
    assert_eq!(psx.cpu.pc, 0x8000_0080);
}

#[test]
fn syscall_honors_boot_exception_vector() {
    let mut psx = fresh_psx(&[0x0000_000c]);
    psx.cpu.cop0_registers[12] = 1 << 22;
    assert!(psx.cpu.step().is_ok());
    assert_eq!(psx.cpu.pc, 0xbfc0_0180);
}

#[test]
fn exception_pushes_status_mode_stack() {
    let mut psx = fresh_psx(&[0x0000_000c]);
    psx.cpu.cop0_registers[12] = 0x0000_0005;
    assert!(psx.cpu.step().is_ok());
    assert_eq!(psx.cpu.cop0_registers[12] & 0x3f, 0x14);
}

#[test]
fn rfe_pops_status_mode_stack() {
    // RFE with the low six bits full: they shift right by two.
    let mut psx = fresh_psx(&[0x4200_0010]);
    psx.cpu.cop0_registers[12] = 0xffff_ff3f;
    assert!(psx.cpu.step().is_ok());
    assert_eq!(psx.cpu.cop0_registers[12], 0xffff_ff0f);
}

#[test]
fn exception_in_delay_slot_records_branch() {
    // J 0xbfc00020 ; SYSCALL: the syscall sits in the delay slot, so the
    // branch-delay bit is set and EPC steps back to the branch.
    let mut psx = fresh_psx(&[0x0bf0_0008, 0x0000_000c]);
    assert!(psx.cpu.step().is_ok());
    assert!(psx.cpu.step().is_ok());
    assert_eq!(psx.cpu.cop0_registers[13] >> 31, 1);
    assert_eq!(psx.cpu.cop0_registers[14], 0xbfc0_0000);
}

#[test]
fn lwl_and_lwr_merge_unaligned_words() {
    // Seed 0x44332211 at 0x100; LWL $2, 0x101($0) with prior $2 then a NOP.
    let mut psx = fresh_psx(&[0x8802_0101, 0x0000_0000]);
    assert!(psx.cpu.bus.write_u32(0x100, 0x4433_2211).is_ok());
    psx.cpu.out_registers[2] = 0xaabb_ccdd;
    psx.cpu.registers[2] = 0xaabb_ccdd;
    assert!(psx.run_steps(2).is_ok());
    assert_eq!(psx.cpu.registers[2], 0x2211_ccdd);

    // LWR $2, 0x102($0): the upper half keeps the register's bytes.
    let mut psx = fresh_psx(&[0x9802_0102, 0x0000_0000]);
    assert!(psx.cpu.bus.write_u32(0x100, 0x4433_2211).is_ok());
    psx.cpu.out_registers[2] = 0xaabb_ccdd;
    psx.cpu.registers[2] = 0xaabb_ccdd;
    assert!(psx.run_steps(2).is_ok());
    assert_eq!(psx.cpu.registers[2], 0xaabb_4433);
}

#[test]
fn swl_and_swr_merge_into_memory() {
    // SWL $1, 0x101($0) against seeded memory.
    let mut psx = fresh_psx(&[0xa801_0101]);
    assert!(psx.cpu.bus.write_u32(0x100, 0x4433_2211).is_ok());
    psx.cpu.registers[1] = 0xaabb_ccdd;
    psx.cpu.out_registers[1] = 0xaabb_ccdd;
    assert!(psx.cpu.step().is_ok());
    assert_eq!(psx.cpu.bus.read_u32(0x100), Ok(0x4433_aabb));

    // SWR $1, 0x102($0).
    let mut psx = fresh_psx(&[0xb801_0102]);
    assert!(psx.cpu.bus.write_u32(0x100, 0x4433_2211).is_ok());
    psx.cpu.registers[1] = 0xaabb_ccdd;
    psx.cpu.out_registers[1] = 0xaabb_ccdd;
    assert!(psx.cpu.step().is_ok());
    assert_eq!(psx.cpu.bus.read_u32(0x100), Ok(0xccdd_2211));
}

#[test]
fn loads_extend_correctly() {
    // LB/LBU of 0xfe at 0x100, LH/LHU of 0xfffe.
    let mut psx = fresh_psx(&[
        0x8001_0100, // LB $1, 0x100($0)
        0x9002_0100, // LBU $2, 0x100($0)
        0x8403_0100, // LH $3, 0x100($0)
        0x9404_0100, // LHU $4, 0x100($0)
        0x0000_0000,
    ]);
    assert!(psx.cpu.bus.write_u16(0x100, 0xfffe).is_ok());
    assert!(psx.run_steps(5).is_ok());
    assert_eq!(psx.cpu.registers[1], 0xffff_fffe);
    assert_eq!(psx.cpu.registers[2], 0x0000_00fe);
    assert_eq!(psx.cpu.registers[3], 0xffff_fffe);
    assert_eq!(psx.cpu.registers[4], 0x0000_fffe);
}

#[test]
fn jal_links_return_address() {
    // JAL 0xbfc00020: register 31 takes the address after the delay slot.
    let mut psx = fresh_psx(&[0x0ff0_0008]);
    assert!(psx.cpu.step().is_ok());
    assert_eq!(psx.cpu.registers[31], 0xbfc0_0008);
    assert_eq!(psx.cpu.branch_delay_pc, Some(0xbfc0_0020));
}

#[test]
fn bltzal_links_even_when_not_taken() {
    // BLTZAL $1, +1 with $1 = 1: not taken, but register 31 is written.
    let word = (0x01u32 << 26) | (1 << 21) | (0x10 << 16) | 0x0001;
    let mut psx = fresh_psx(&[word]);
    psx.cpu.registers[1] = 1;
    psx.cpu.out_registers[1] = 1;
    assert!(psx.cpu.step().is_ok());
    assert_eq!(psx.cpu.registers[31], 0xbfc0_0008);
    assert_eq!(psx.cpu.branch_delay_pc, None);
}

#[test]
fn coprocessor_one_raises_unusable() {
    let word = 0x11u32 << 26;
    let mut psx = fresh_psx(&[word]);
    assert!(psx.cpu.step().is_ok());
    assert_eq!((psx.cpu.cop0_registers[13] >> 2) & 0x1f, 0x0b);
}

#[test]
fn unknown_opcode_raises_reserved() {
    let word = 0x3fu32 << 26;
    let mut psx = fresh_psx(&[word]);
    assert!(psx.cpu.step().is_ok());
    assert_eq!((psx.cpu.cop0_registers[13] >> 2) & 0x1f, 0x0a);
}
