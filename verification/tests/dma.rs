//! The DMA controller: register decode and readback, the
//! ordering-table-clear transfer, and the unresolvable configurations.

use psx_core::abort::Abort;
use psx_core::mem::BIOS_SIZE;
use psx_core::psx::Psx;

fn dma_psx() -> Psx {
    Psx::new(vec![0u8; BIOS_SIZE])
}

#[test]
fn control_word_resets_to_documented_value() {
    let psx = dma_psx();
    assert_eq!(psx.cpu.bus.read_u32(0x1f80_10f0), Ok(0x0765_4321));
}

#[test]
fn interrupt_word_round_trips() {
    let mut psx = dma_psx();
    assert!(psx.cpu.bus.write_u32(0x1f80_10f4, 0x1234_5678).is_ok());
    assert_eq!(psx.cpu.bus.read_u32(0x1f80_10f4), Ok(0x1234_5678));
}

#[test]
fn base_address_keeps_low_three_bytes() {
    let mut psx = dma_psx();
    assert!(psx.cpu.bus.write_u32(0x1f80_10e0, 0xff12_3456).is_ok());
    assert_eq!(psx.cpu.bus.read_u32(0x1f80_10e0), Ok(0x0012_3456));
}

#[test]
fn block_sizes_round_trip() {
    let mut psx = dma_psx();
    assert!(psx.cpu.bus.write_u32(0x1f80_10e4, 0x0002_0004).is_ok());
    assert_eq!(psx.cpu.bus.read_u32(0x1f80_10e4), Ok(0x0002_0004));
}

#[test]
fn otc_transfer_writes_descending_list() {
    let mut psx = dma_psx();
    assert!(psx.cpu.bus.write_u32(0x1f80_10e0, 0x0010_0000).is_ok());
    assert!(psx.cpu.bus.write_u32(0x1f80_10e4, 4).is_ok());
    // Direction to RAM, step backward, sync immediate, busy, manual start.
    assert!(psx.cpu.bus.write_u32(0x1f80_10e8, 0x1100_0002).is_ok());
    assert_eq!(psx.cpu.bus.read_u32(0x000f_fffc), Ok(0x0010_0000));
    assert_eq!(psx.cpu.bus.read_u32(0x000f_fff8), Ok(0x000f_fffc));
    assert_eq!(psx.cpu.bus.read_u32(0x000f_fff4), Ok(0x000f_fff8));
    assert_eq!(psx.cpu.bus.read_u32(0x000f_fff0), Ok(0x00ff_ffff));
    // The transfer finished: busy and trigger are clear on readback.
    assert_eq!(psx.cpu.bus.read_u8(0x1f80_10eb), Ok(0));
}

#[test]
fn otc_transfer_with_zero_size_only_finishes() {
    let mut psx = dma_psx();
    assert!(psx.cpu.bus.write_u32(0x1f80_10e0, 0x0010_0000).is_ok());
    assert!(psx.cpu.bus.write_u32(0x1f80_10e8, 0x1100_0002).is_ok());
    assert_eq!(psx.cpu.bus.read_u32(0x000f_fffc), Ok(0));
    assert_eq!(psx.cpu.bus.read_u8(0x1f80_10eb), Ok(0));
}

#[test]
fn immediate_transfer_on_other_channel_is_unresolvable() {
    let mut psx = dma_psx();
    assert!(psx.cpu.bus.write_u32(0x1f80_1080, 0x0010_0000).is_ok());
    assert!(psx.cpu.bus.write_u32(0x1f80_1084, 4).is_ok());
    assert_eq!(
        psx.cpu.bus.write_u32(0x1f80_1088, 0x1100_0000),
        Err(Abort::UnimplementedDmaTransfer { channel: 0 })
    );
}

#[test]
fn sync_mode_transfer_is_unresolvable() {
    let mut psx = dma_psx();
    // Busy with linked-list sync on the OTC channel: ready without the
    // trigger, and the start is unresolvable.
    assert_eq!(
        psx.cpu.bus.write_u32(0x1f80_10e8, 0x0100_0400),
        Err(Abort::UnimplementedDmaSync { channel: 6 })
    );
}

#[test]
fn reserved_sync_encoding_is_unresolvable() {
    let mut psx = dma_psx();
    assert_eq!(
        psx.cpu.bus.write_u8(0x1f80_1089, 0b0000_0110),
        Err(Abort::ReservedDmaSyncMode { value: 0b0000_0110 })
    );
}

#[test]
fn transfer_leaving_ram_is_unresolvable() {
    let mut psx = dma_psx();
    // Base at the top of RAM, stepping forward: the first write already
    // falls outside the array.
    assert!(psx.cpu.bus.write_u32(0x1f80_10e0, 0x001f_fffc).is_ok());
    assert!(psx.cpu.bus.write_u32(0x1f80_10e4, 2).is_ok());
    assert_eq!(
        psx.cpu.bus.write_u32(0x1f80_10e8, 0x1100_0000),
        Err(Abort::DmaOutOfBounds { address: 0x0020_0000 })
    );
}

#[test]
fn dma_register_hole_is_unresolvable() {
    let psx = dma_psx();
    assert_eq!(
        psx.cpu.bus.read_u8(0x1f80_108d),
        Err(Abort::UnmappedDmaRead { offset: 0x0d })
    );
    let mut psx = dma_psx();
    assert_eq!(
        psx.cpu.bus.write_u8(0x1f80_10f8, 0),
        Err(Abort::UnmappedDmaWrite { offset: 0x78 })
    );
}

#[test]
fn channel_control_round_trips() {
    let mut psx = dma_psx();
    // Direction from RAM, step backward, chopping with both window sizes,
    // busy without trigger.
    assert!(psx.cpu.bus.write_u8(0x1f80_10e8, 0b0000_0011).is_ok());
    assert!(psx.cpu.bus.write_u8(0x1f80_10e9, 0b0000_0101).is_ok());
    assert!(psx.cpu.bus.write_u8(0x1f80_10ea, 0b0101_0011).is_ok());
    assert_eq!(psx.cpu.bus.read_u8(0x1f80_10e8), Ok(0b0000_0011));
    assert_eq!(psx.cpu.bus.read_u8(0x1f80_10e9), Ok(0b0000_0101));
    assert_eq!(psx.cpu.bus.read_u8(0x1f80_10ea), Ok(0b0101_0011));
}
