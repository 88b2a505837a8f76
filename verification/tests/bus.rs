//! The bus: region masking, the decode table with its stubs, little-endian
//! word synthesis, the RAM mirror, and the storage components.

use psx_core::abort::Abort;
use psx_core::mem::{Bios, Memory, Ram, BIOS_SIZE};
use psx_core::psx::Psx;
use psx_core::range::Range;
use psx_core::words::{half_from_bytes, half_get_byte, word_from_bytes, word_get_byte, word_set_byte};

fn bus_psx() -> Psx {
    let mut bios = vec![0u8; BIOS_SIZE];
    bios[0] = 0xaa;
    bios[1] = 0xbb;
    bios[2] = 0xcc;
    bios[3] = 0xdd;
    Psx::new(bios)
}

#[test]
fn word_reads_combine_bytes_little_endian() {
    let mut psx = bus_psx();
    assert!(psx.cpu.bus.write_u8(0x100, 0x11).is_ok());
    assert!(psx.cpu.bus.write_u8(0x101, 0x22).is_ok());
    assert!(psx.cpu.bus.write_u8(0x102, 0x33).is_ok());
    assert!(psx.cpu.bus.write_u8(0x103, 0x44).is_ok());
    assert_eq!(psx.cpu.bus.read_u32(0x100), Ok(0x4433_2211));
    assert_eq!(psx.cpu.bus.read_u16(0x100), Ok(0x2211));
    assert_eq!(psx.cpu.bus.read_u16(0x102), Ok(0x4433));
}

#[test]
fn word_store_then_load_round_trips() {
    let mut psx = bus_psx();
    assert!(psx.cpu.bus.write_u32(0x1234, 0xcafe_babe).is_ok());
    assert_eq!(psx.cpu.bus.read_u32(0x1234), Ok(0xcafe_babe));
    assert_eq!(psx.cpu.bus.read_u8(0x1234), Ok(0xbe));
    assert_eq!(psx.cpu.bus.read_u8(0x1237), Ok(0xca));
}

#[test]
fn kseg_mirrors_reach_the_same_ram() {
    let mut psx = bus_psx();
    assert!(psx.cpu.bus.write_u32(0x8000_1000, 0x1234_5678).is_ok());
    assert_eq!(psx.cpu.bus.read_u32(0xa000_1000), Ok(0x1234_5678));
    assert_eq!(psx.cpu.bus.read_u32(0x0000_1000), Ok(0x1234_5678));
}

#[test]
fn ram_window_mirrors_the_array() {
    let mut psx = bus_psx();
    assert!(psx.cpu.bus.write_u8(0x0020_0004, 0x7e).is_ok());
    assert_eq!(psx.cpu.bus.read_u8(0x0000_0004), Ok(0x7e));
}

#[test]
fn bios_window_reads_image_and_absorbs_writes() {
    let mut psx = bus_psx();
    assert_eq!(psx.cpu.bus.read_u32(0xbfc0_0000), Ok(0xddcc_bbaa));
    assert!(psx.cpu.bus.write_u8(0xbfc0_0000, 0x00).is_ok());
    assert_eq!(psx.cpu.bus.read_u8(0xbfc0_0000), Ok(0xaa));
    assert_eq!(psx.cpu.bus.read_u8(0x1fc0_0001), Ok(0xbb));
}

#[test]
fn expansion_region_one_reads_ones() {
    let psx = bus_psx();
    assert_eq!(psx.cpu.bus.read_u8(0x1f00_0000), Ok(0xff));
    assert_eq!(psx.cpu.bus.read_u32(0x1f00_0100), Ok(0xffff_ffff));
}

#[test]
fn stub_windows_read_zero_and_absorb_writes() {
    let mut psx = bus_psx();
    for address in [
        0x1f80_0000u32, // scratchpad
        0x1f80_1000,    // memory control 1
        0x1f80_1040,    // peripheral I/O
        0x1f80_1060,    // memory control 2
        0x1f80_1070,    // interrupt control
        0x1f80_1100,    // timers
        0x1f80_1800,    // CDROM
        0x1f80_1820,    // MDEC
        0x1f80_1c00,    // SPU
        0x1f80_2000,    // expansion region 2
        0x1fa0_0000,    // expansion region 3
        0xfffe_0130,    // memory control 3
    ] {
        assert!(psx.cpu.bus.write_u8(address, 0x5a).is_ok());
        assert_eq!(psx.cpu.bus.read_u8(address), Ok(0));
    }
}

#[test]
fn unmapped_addresses_are_unresolvable() {
    let mut psx = bus_psx();
    assert_eq!(
        psx.cpu.bus.read_u8(0x1f80_0400),
        Err(Abort::UnmappedRead { address: 0x1f80_0400 })
    );
    assert_eq!(
        psx.cpu.bus.write_u8(0x1f80_0400, 1),
        Err(Abort::UnmappedWrite { address: 0x1f80_0400 })
    );
    // A KSEG1 view of the same hole masks to the same physical address.
    assert_eq!(
        psx.cpu.bus.read_u8(0xbf80_0400),
        Err(Abort::UnmappedRead { address: 0x1f80_0400 })
    );
}

#[test]
fn range_reports_offsets() {
    let range = Range::new(0x1f80_1080, 0x80);
    assert_eq!(range.contains(0x1f80_1080), Some(0));
    assert_eq!(range.contains(0x1f80_10ff), Some(0x7f));
    assert_eq!(range.contains(0x1f80_1100), None);
    assert_eq!(range.contains(0), None);
}

#[test]
fn ram_and_bios_components_read_and_write() {
    let mut ram = Ram::new();
    ram.write_u8(5, 0x42);
    assert_eq!(ram.read_u8(5), 0x42);
    assert_eq!(ram.read_u8(6), 0);

    let mut image = vec![0u8; BIOS_SIZE];
    image[7] = 0x99;
    let mut bios = Bios::new(image);
    assert_eq!(bios.read_u8(7), 0x99);
    bios.write_u8(7, 0x11);
    assert_eq!(bios.read_u8(7), 0x99);
}

#[test]
fn word_byte_helpers_round_trip() {
    let word = 0x4433_2211u32;
    assert_eq!(word_get_byte(word, 0), 0x11);
    assert_eq!(word_get_byte(word, 3), 0x44);
    assert_eq!(word_set_byte(word, 1, 0xee), 0x4433_ee11);
    assert_eq!(word_from_bytes(0x11, 0x22, 0x33, 0x44), word);
    assert_eq!(half_get_byte(0x2211, 1), 0x22);
    assert_eq!(half_from_bytes(0x11, 0x22), 0x2211);
}
