//! End-to-end scenarios: boot, instruction sequences through the firmware
//! window, the delay slots, and cache isolation.

use psx_core::abort::Abort;
use psx_core::mem::BIOS_SIZE;
use psx_core::psx::Psx;

fn bios_with_words(words: &[u32]) -> Vec<u8> {
    let mut data = vec![0u8; BIOS_SIZE];
    for (i, word) in words.iter().enumerate() {
        let bytes = word.to_le_bytes();
        data[i * 4..i * 4 + 4].copy_from_slice(&bytes);
    }
    data
}

#[test]
fn boot_pc_is_bios_entry() {
    let psx = Psx::new(bios_with_words(&[]));
    assert_eq!(psx.cpu.pc, 0xbfc0_0000);
}

#[test]
fn first_step_fetches_bios_word() {
    // LUI $1, 0x1f80 sits at the start of the image; one step must fetch
    // and execute it, leaving the program counter one instruction further.
    let mut psx = Psx::new(bios_with_words(&[0x3c01_1f80]));
    assert!(psx.cpu.step().is_ok());
    assert_eq!(psx.cpu.pc, 0xbfc0_0004);
    assert_eq!(psx.cpu.registers[1], 0x1f80_0000);
}

#[test]
fn lui_then_ori_builds_constant() {
    // LUI $1, 0x1f80 ; ORI $1, $1, 0x1010
    let mut psx = Psx::new(bios_with_words(&[0x3c01_1f80, 0x3421_1010]));
    assert!(psx.cpu.step().is_ok());
    assert!(psx.cpu.step().is_ok());
    assert_eq!(psx.cpu.registers[1], 0x1f80_1010);
}

#[test]
fn jump_delay_slot_executes_once() {
    // J 0xbfc00020 ; ORI $1, $0, 0x0042. The ORI in the delay slot must
    // execute, and the program counter must sit at the jump target after
    // the two steps.
    let mut psx = Psx::new(bios_with_words(&[0x0bf0_0008, 0x3401_0042]));
    assert!(psx.cpu.step().is_ok());
    assert_eq!(psx.cpu.branch_delay_pc, Some(0xbfc0_0020));
    assert!(psx.cpu.step().is_ok());
    assert_eq!(psx.cpu.registers[1], 0x42);
    assert_eq!(psx.cpu.pc, 0xbfc0_0020);
}

#[test]
fn branch_taken_delay_slot() {
    // BEQ $0, $0, +4 ; ADDIU $1, $0, 7 ; ADDIU $2, $0, 8 ; ADDIU $3, $0, 9
    // The branch skips one instruction beyond the delay slot: the delay
    // slot (7) runs, the skipped word (8) does not, the target (9) does.
    let mut psx = Psx::new(bios_with_words(&[
        0x1000_0002,
        0x2401_0007,
        0x2402_0008,
        0x2403_0009,
    ]));
    for _ in 0..3 {
        assert!(psx.cpu.step().is_ok());
    }
    assert_eq!(psx.cpu.registers[1], 7);
    assert_eq!(psx.cpu.registers[2], 0);
    assert_eq!(psx.cpu.registers[3], 9);
}

#[test]
fn cache_isolated_store_skips_ram() {
    // SW $2, 0($3) with SR bit 16 set must leave RAM untouched; with the
    // bit cleared the same store lands and reads back.
    let mut psx = Psx::new(bios_with_words(&[0xac62_0000]));
    psx.cpu.cop0_registers[12] = 0x10000;
    psx.cpu.registers[3] = 0x0000_1000;
    psx.cpu.registers[2] = 0xdead_beef;
    psx.cpu.out_registers[3] = 0x0000_1000;
    psx.cpu.out_registers[2] = 0xdead_beef;
    assert!(psx.cpu.step().is_ok());
    assert_eq!(psx.cpu.bus.read_u32(0x1000), Ok(0));

    psx.cpu.cop0_registers[12] = 0;
    psx.cpu.pc = 0xbfc0_0000;
    assert!(psx.cpu.step().is_ok());
    assert_eq!(psx.cpu.bus.read_u32(0x1000), Ok(0xdead_beef));
}

#[test]
fn load_delay_slot_reads_prior_value() {
    // SW $4, 0x100($0) seeds memory; LW $1, 0x100($0) ; ORI $2, $1, 0.
    // The ORI in the load delay slot sees the old $1; afterwards $1 holds
    // the loaded value.
    let mut psx = Psx::new(bios_with_words(&[0x8c01_0100, 0x3422_0000, 0x0000_0000]));
    assert!(psx.cpu.bus.write_u32(0x100, 77).is_ok());
    psx.cpu.registers[1] = 5;
    psx.cpu.out_registers[1] = 5;
    assert!(psx.cpu.step().is_ok());
    assert!(psx.cpu.step().is_ok());
    assert_eq!(psx.cpu.registers[2], 5);
    assert_eq!(psx.cpu.registers[1], 77);
}

#[test]
fn register_write_beats_pending_load() {
    // LW $1, 0x100($0) ; ADDIU $1, $0, 9: the instruction in the load
    // delay slot writes the same register, and its write must win.
    let mut psx = Psx::new(bios_with_words(&[0x8c01_0100, 0x2401_0009]));
    assert!(psx.cpu.bus.write_u32(0x100, 77).is_ok());
    assert!(psx.cpu.step().is_ok());
    assert!(psx.cpu.step().is_ok());
    assert_eq!(psx.cpu.registers[1], 9);
}

#[test]
fn unaligned_program_counter_is_an_abort() {
    let mut psx = Psx::new(bios_with_words(&[]));
    psx.cpu.pc = 0xbfc0_0002;
    assert_eq!(
        psx.cpu.step(),
        Err(Abort::UnalignedProgramCounter { pc: 0xbfc0_0002 })
    );
}

#[test]
fn lwc2_is_unimplemented() {
    // LWC2 $1, 0($0)
    let word = (0x32u32 << 26) | (1 << 16);
    let mut psx = Psx::new(bios_with_words(&[word]));
    assert_eq!(
        psx.cpu.step(),
        Err(Abort::UnimplementedInstruction {
            word,
            pc: 0xbfc0_0000
        })
    );
}

#[test]
fn run_steps_stops_at_abort() {
    // A NOP followed by an instruction fetch from an unaligned target: the
    // run reports the abort from the failing step.
    let mut psx = Psx::new(bios_with_words(&[0x0000_0000]));
    psx.cpu.pc = 0xbfc0_0002;
    let r = psx.run_steps(5);
    assert_eq!(
        r,
        Err(Abort::UnalignedProgramCounter { pc: 0xbfc0_0002 })
    );
}

#[test]
fn emulate_frame_reports_running_off_the_firmware() {
    // A zeroed image is a sea of NOPs: the frame's budget of steps carries
    // the program counter past the end of the firmware window, where the
    // fetch has no mapped byte.
    let mut psx = Psx::new(bios_with_words(&[]));
    assert_eq!(
        psx.emulate_frame(),
        Err(Abort::UnmappedRead { address: 0x1fc8_0000 })
    );
}

#[test]
fn run_steps_runs_each_step() {
    // Three ADDIU $1, $1, 1 instructions: after a three-step run the
    // counter registers the full sum.
    let mut psx = Psx::new(bios_with_words(&[0x2421_0001, 0x2421_0001, 0x2421_0001]));
    assert!(psx.run_steps(3).is_ok());
    assert_eq!(psx.cpu.registers[1], 3);
    assert_eq!(psx.cpu.pc, 0xbfc0_000c);
}
