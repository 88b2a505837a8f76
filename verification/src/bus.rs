//! The bus: the region-mask mapping from virtual to physical addresses, and
//! the fixed decode table that routes byte accesses to RAM, BIOS, the DMA
//! controller, the GPU ports, and the stubbed device windows. Half-word and
//! word accesses are synthesised from bytes in little-endian address order.
//! A store into the DMA window may start a transfer on the spot.

use vstd::prelude::*;

use crate::abort::{matches_abort, Abort};
use crate::channel::{channel_ready, channel_transfer_spec};
use crate::dma::{dma_channel_offset, dma_read_spec, dma_wf, dma_write_spec, spec_channel_id, Dma, DmaView};
use crate::gpu::{gpu_read_spec, gpu_wf, gpu_write_spec, Gpu, GpuView};
use crate::mem::{Bios, Memory, Ram, BIOS_SIZE, RAM_SIZE};
use crate::range::{range_contains, Range};
use crate::words::{word_byte, word_get_byte, word_of_bytes, half_byte, half_get_byte, half_of_bytes};

verus! {

/// The first address of the RAM window.
pub const RAM_START: u32 = 0x00000000;

/// The length of the RAM window; the 2 MiB array is mirrored across it.
pub const RAM_LENGTH: u32 = 0x1f000000;

/// The first address of expansion region 1.
pub const EXPANSION_REGION_1_START: u32 = 0x1f000000;

/// The length of expansion region 1.
pub const EXPANSION_REGION_1_LENGTH: u32 = 0x800000;

/// The first address of the scratchpad.
pub const SCRATCHPAD_START: u32 = 0x1f800000;

/// The length of the scratchpad.
pub const SCRATCHPAD_LENGTH: u32 = 0x400;

/// The first address of the first memory-control window.
pub const MEMORY_CONTROL_1_START: u32 = 0x1f801000;

/// The length of the first memory-control window.
pub const MEMORY_CONTROL_1_LENGTH: u32 = 0x24;

/// The first address of the peripheral I/O window.
pub const PERIPHERAL_IO_START: u32 = 0x1f801040;

/// The length of the peripheral I/O window.
pub const PERIPHERAL_IO_LENGTH: u32 = 0x20;

/// The first address of the second memory-control window.
pub const MEMORY_CONTROL_2_START: u32 = 0x1f801060;

/// The length of the second memory-control window.
pub const MEMORY_CONTROL_2_LENGTH: u32 = 0x4;

/// The first address of the interrupt-control window.
pub const INTERRUPT_CONTROL_START: u32 = 0x1f801070;

/// The length of the interrupt-control window.
pub const INTERRUPT_CONTROL_LENGTH: u32 = 0x8;

/// The first address of the DMA register block.
pub const DMA_REGISTERS_START: u32 = 0x1f801080;

/// The length of the DMA register block.
pub const DMA_REGISTERS_LENGTH: u32 = 0x80;

/// The first address of the timer window.
pub const TIMERS_START: u32 = 0x1f801100;

/// The length of the timer window.
pub const TIMERS_LENGTH: u32 = 0x30;

/// The first address of the CDROM window.
pub const CDROM_START: u32 = 0x1f801800;

/// The length of the CDROM window.
pub const CDROM_LENGTH: u32 = 0x4;

/// The first address of the GPU register window.
pub const GPU_START: u32 = 0x1f801810;

/// The length of the GPU register window.
pub const GPU_LENGTH: u32 = 0x8;

/// The first address of the MDEC window.
pub const MDEC_START: u32 = 0x1f801820;

/// The length of the MDEC window.
pub const MDEC_LENGTH: u32 = 0x8;

/// The first address of the SPU window.
pub const SPU_START: u32 = 0x1f801c00;

/// The length of the SPU window.
pub const SPU_LENGTH: u32 = 0x400;

/// The first address of expansion region 2.
pub const EXPANSION_REGION_2_START: u32 = 0x1f802000;

/// The length of expansion region 2.
pub const EXPANSION_REGION_2_LENGTH: u32 = 0x88;

/// The first address of expansion region 3.
pub const EXPANSION_REGION_3_START: u32 = 0x1fa00000;

/// The length of expansion region 3.
pub const EXPANSION_REGION_3_LENGTH: u32 = 0x200000;

/// The first address of the BIOS window.
pub const BIOS_START: u32 = 0x1fc00000;

/// The length of the BIOS window.
pub const BIOS_LENGTH: u32 = 0x80000;

/// The first address of the third memory-control window.
pub const MEMORY_CONTROL_3_START: u32 = 0xfffe0130;

/// The length of the third memory-control window.
pub const MEMORY_CONTROL_3_LENGTH: u32 = 0x4;

/// The mathematical view of the bus and everything it owns.
pub struct BusView {
    /// The bytes of the BIOS image.
    pub bios: Seq<u8>,
    /// The bytes of main RAM.
    pub ram: Seq<u8>,
    /// The DMA controller.
    pub dma: DmaView,
    /// The GPU front-end.
    pub gpu: GpuView,
}

/// The bus component, owning the storage and the device front-ends.
#[derive(Debug)]
pub struct Bus {
    /// The BIOS component.
    pub bios: Bios,
    /// The RAM component.
    pub ram: Ram,
    /// The DMA component.
    pub dma: Dma,
    /// The GPU component.
    pub gpu: Gpu,
}

impl View for Bus {
    type V = BusView;

    open spec fn view(&self) -> BusView {
        BusView { bios: self.bios.data@, ram: self.ram.data@, dma: self.dma@, gpu: self.gpu@ }
    }
}

/// The storage has its fixed sizes and the device front-ends their own
/// invariants.
pub open spec fn bus_wf(b: BusView) -> bool {
    b.bios.len() == BIOS_SIZE && b.ram.len() == RAM_SIZE && dma_wf(b.dma) && gpu_wf(b.gpu)
}

/// The physical address a virtual address maps to: the three top bits pick
/// the region, whose fixed mask drops the segment bits.
pub open spec fn spec_mask_address(address: u32) -> u32 {
    let region = address >> 29;
    if region == 4 {
        address & 0x7fffffff
    } else if region == 5 {
        address & 0x1fffffff
    } else {
        address
    }
}

/// The byte a read of the bus returns at a virtual address: storage bytes
/// from RAM and BIOS, device bytes from the DMA and GPU windows, documented
/// constants from the stubs, and no byte at all outside the decode table.
pub open spec fn bus_read8_spec(b: BusView, address: u32) -> Result<u8, Abort> {
    let pa = spec_mask_address(address);
    if range_contains(RAM_START, RAM_LENGTH, pa) {
        Ok(b.ram[((pa - RAM_START) as u32 % (RAM_SIZE as u32)) as int])
    } else if range_contains(EXPANSION_REGION_1_START, EXPANSION_REGION_1_LENGTH, pa) {
        Ok(0xff)
    } else if range_contains(SCRATCHPAD_START, SCRATCHPAD_LENGTH, pa) {
        Ok(0x00)
    } else if range_contains(MEMORY_CONTROL_1_START, MEMORY_CONTROL_1_LENGTH, pa) {
        Ok(0x00)
    } else if range_contains(PERIPHERAL_IO_START, PERIPHERAL_IO_LENGTH, pa) {
        Ok(0x00)
    } else if range_contains(MEMORY_CONTROL_2_START, MEMORY_CONTROL_2_LENGTH, pa) {
        Ok(0x00)
    } else if range_contains(INTERRUPT_CONTROL_START, INTERRUPT_CONTROL_LENGTH, pa) {
        Ok(0x00)
    } else if range_contains(DMA_REGISTERS_START, DMA_REGISTERS_LENGTH, pa) {
        dma_read_spec(b.dma, (pa - DMA_REGISTERS_START) as u32)
    } else if range_contains(TIMERS_START, TIMERS_LENGTH, pa) {
        Ok(0x00)
    } else if range_contains(CDROM_START, CDROM_LENGTH, pa) {
        Ok(0x00)
    } else if range_contains(GPU_START, GPU_LENGTH, pa) {
        Ok(gpu_read_spec(b.gpu, (pa - GPU_START) as u32))
    } else if range_contains(MDEC_START, MDEC_LENGTH, pa) {
        Ok(0x00)
    } else if range_contains(SPU_START, SPU_LENGTH, pa) {
        Ok(0x00)
    } else if range_contains(EXPANSION_REGION_2_START, EXPANSION_REGION_2_LENGTH, pa) {
        Ok(0x00)
    } else if range_contains(EXPANSION_REGION_3_START, EXPANSION_REGION_3_LENGTH, pa) {
        Ok(0x00)
    } else if range_contains(BIOS_START, BIOS_LENGTH, pa) {
        Ok(b.bios[(pa - BIOS_START) as int])
    } else if range_contains(MEMORY_CONTROL_3_START, MEMORY_CONTROL_3_LENGTH, pa) {
        Ok(0x00)
    } else {
        Err(Abort::UnmappedRead { address: pa })
    }
}

/// The bus after a byte write into the DMA register block: the register is
/// written, and when that leaves the addressed channel ready, the channel's
/// transfer runs against RAM on the spot.
pub open spec fn bus_write8_dma_spec(b: BusView, offset: u32, value: u8) -> (BusView, Option<
    Abort,
>) {
    match dma_write_spec(b.dma, offset, value) {
        Err(a) => (b, Some(a)),
        Ok(d2) => {
            if dma_channel_offset(offset) {
                let id = spec_channel_id(offset) as int;
                let ch = d2.channels[id];
                if channel_ready(ch) {
                    let (ram2, ch2, abort) = channel_transfer_spec(ch, b.ram);
                    (
                        BusView {
                            ram: ram2,
                            dma: DmaView { channels: d2.channels.update(id, ch2), ..d2 },
                            ..b
                        },
                        abort,
                    )
                } else {
                    (BusView { dma: d2, ..b }, None)
                }
            } else {
                (BusView { dma: d2, ..b }, None)
            }
        },
    }
}

/// The bus after a byte write at a virtual address: RAM takes the byte, the
/// BIOS and the stubs absorb it, the DMA and GPU windows decode it, and an
/// address outside the decode table takes no write at all.
pub open spec fn bus_write8_spec(b: BusView, address: u32, value: u8) -> (BusView, Option<Abort>) {
    let pa = spec_mask_address(address);
    if range_contains(RAM_START, RAM_LENGTH, pa) {
        (
            BusView {
                ram: b.ram.update((((pa - RAM_START) as u32 % (RAM_SIZE as u32)) as int), value),
                ..b
            },
            None,
        )
    } else if range_contains(EXPANSION_REGION_1_START, EXPANSION_REGION_1_LENGTH, pa) {
        (b, None)
    } else if range_contains(SCRATCHPAD_START, SCRATCHPAD_LENGTH, pa) {
        (b, None)
    } else if range_contains(MEMORY_CONTROL_1_START, MEMORY_CONTROL_1_LENGTH, pa) {
        (b, None)
    } else if range_contains(PERIPHERAL_IO_START, PERIPHERAL_IO_LENGTH, pa) {
        (b, None)
    } else if range_contains(MEMORY_CONTROL_2_START, MEMORY_CONTROL_2_LENGTH, pa) {
        (b, None)
    } else if range_contains(INTERRUPT_CONTROL_START, INTERRUPT_CONTROL_LENGTH, pa) {
        (b, None)
    } else if range_contains(DMA_REGISTERS_START, DMA_REGISTERS_LENGTH, pa) {
        bus_write8_dma_spec(b, (pa - DMA_REGISTERS_START) as u32, value)
    } else if range_contains(TIMERS_START, TIMERS_LENGTH, pa) {
        (b, None)
    } else if range_contains(CDROM_START, CDROM_LENGTH, pa) {
        (b, None)
    } else if range_contains(GPU_START, GPU_LENGTH, pa) {
        let (g2, abort) = gpu_write_spec(b.gpu, (pa - GPU_START) as u32, value);
        (BusView { gpu: g2, ..b }, abort)
    } else if range_contains(MDEC_START, MDEC_LENGTH, pa) {
        (b, None)
    } else if range_contains(SPU_START, SPU_LENGTH, pa) {
        (b, None)
    } else if range_contains(EXPANSION_REGION_2_START, EXPANSION_REGION_2_LENGTH, pa) {
        (b, None)
    } else if range_contains(EXPANSION_REGION_3_START, EXPANSION_REGION_3_LENGTH, pa) {
        (b, None)
    } else if range_contains(BIOS_START, BIOS_LENGTH, pa) {
        (b, None)
    } else if range_contains(MEMORY_CONTROL_3_START, MEMORY_CONTROL_3_LENGTH, pa) {
        (b, None)
    } else {
        (b, Some(Abort::UnmappedWrite { address: pa }))
    }
}

/// The half-word a bus read returns at a 2-aligned virtual address: its two
/// bytes in little-endian address order.
pub open spec fn bus_read16_spec(b: BusView, address: u32) -> Result<u16, Abort>
    recommends
        address % 2 == 0,
{
    match bus_read8_spec(b, address) {
        Err(a) => Err(a),
        Ok(b0) => match bus_read8_spec(b, (address + 1) as u32) {
            Err(a) => Err(a),
            Ok(b1) => Ok(half_of_bytes(b0, b1)),
        },
    }
}

/// The word a bus read returns at a 4-aligned virtual address: its four
/// bytes in little-endian address order.
pub open spec fn bus_read32_spec(b: BusView, address: u32) -> Result<u32, Abort>
    recommends
        address % 4 == 0,
{
    match bus_read8_spec(b, address) {
        Err(a) => Err(a),
        Ok(b0) => match bus_read8_spec(b, (address + 1) as u32) {
            Err(a) => Err(a),
            Ok(b1) => match bus_read8_spec(b, (address + 2) as u32) {
                Err(a) => Err(a),
                Ok(b2) => match bus_read8_spec(b, (address + 3) as u32) {
                    Err(a) => Err(a),
                    Ok(b3) => Ok(word_of_bytes(b0, b1, b2, b3)),
                },
            },
        },
    }
}

/// The bus after a half-word write at a 2-aligned virtual address: its two
/// bytes written in address order, stopping at a failed write.
pub open spec fn bus_write16_spec(b: BusView, address: u32, value: u16) -> (BusView, Option<Abort>)
    recommends
        address % 2 == 0,
{
    let (b1, a1) = bus_write8_spec(b, address, half_byte(value, 0));
    if a1 is Some {
        (b1, a1)
    } else {
        bus_write8_spec(b1, (address + 1) as u32, half_byte(value, 1))
    }
}

/// The bus after a word write at a 4-aligned virtual address: its four
/// bytes written in address order, stopping at a failed write.
pub open spec fn bus_write32_spec(b: BusView, address: u32, value: u32) -> (BusView, Option<Abort>)
    recommends
        address % 4 == 0,
{
    let (b1, a1) = bus_write8_spec(b, address, word_byte(value, 0));
    if a1 is Some {
        (b1, a1)
    } else {
        let (b2, a2) = bus_write8_spec(b1, (address + 1) as u32, word_byte(value, 1));
        if a2 is Some {
            (b2, a2)
        } else {
            let (b3, a3) = bus_write8_spec(b2, (address + 2) as u32, word_byte(value, 2));
            if a3 is Some {
                (b3, a3)
            } else {
                bus_write8_spec(b3, (address + 3) as u32, word_byte(value, 3))
            }
        }
    }
}

impl Bus {
    /// Creates the bus around the storage and device components it owns.
    pub fn new(bios: Bios, ram: Ram, dma: Dma, gpu: Gpu) -> (r: Bus)
        ensures
            r@.bios == bios.data@,
            r@.ram == ram.data@,
            r@.dma == dma@,
            r@.gpu == gpu@,
    {
        Bus { bios, ram, dma, gpu }
    }

    /// Maps a virtual address to a physical one through the region masks.
    pub fn mask_address(address: u32) -> (r: u32)
        ensures
            r == spec_mask_address(address),
    {
        let region = address >> 29;
        if region == 4 {
            address & 0x7fffffff
        } else if region == 5 {
            address & 0x1fffffff
        } else {
            address
        }
    }

    /// Reads the byte at a virtual address, routed through the decode
    /// table. An address outside the table has no byte to read.
    pub fn read_u8(&self, address: u32) -> (r: Result<u8, Abort>)
        requires
            bus_wf(self@),
        ensures
            r == bus_read8_spec(self@, address),
    {
        let physical_address = Bus::mask_address(address);

        if let Some(offset) = Range::new(RAM_START, RAM_LENGTH).contains(physical_address) {
            return Ok(self.ram.read_u8(offset % (RAM_SIZE as u32)));
        }
        if let Some(_offset) = Range::new(EXPANSION_REGION_1_START, EXPANSION_REGION_1_LENGTH)
            .contains(physical_address) {
            return Ok(0xff);
        }
        if let Some(_offset) = Range::new(SCRATCHPAD_START, SCRATCHPAD_LENGTH).contains(
            physical_address,
        ) {
            return Ok(0x00);
        }
        if let Some(_offset) = Range::new(MEMORY_CONTROL_1_START, MEMORY_CONTROL_1_LENGTH).contains(
            physical_address,
        ) {
            return Ok(0x00);
        }
        if let Some(_offset) = Range::new(PERIPHERAL_IO_START, PERIPHERAL_IO_LENGTH).contains(
            physical_address,
        ) {
            return Ok(0x00);
        }
        if let Some(_offset) = Range::new(MEMORY_CONTROL_2_START, MEMORY_CONTROL_2_LENGTH).contains(
            physical_address,
        ) {
            return Ok(0x00);
        }
        if let Some(_offset) = Range::new(INTERRUPT_CONTROL_START, INTERRUPT_CONTROL_LENGTH)
            .contains(physical_address) {
            return Ok(0x00);
        }
        if let Some(offset) = Range::new(DMA_REGISTERS_START, DMA_REGISTERS_LENGTH).contains(
            physical_address,
        ) {
            return self.dma.read_u8(offset);
        }
        if let Some(_offset) = Range::new(TIMERS_START, TIMERS_LENGTH).contains(physical_address) {
            return Ok(0x00);
        }
        if let Some(_offset) = Range::new(CDROM_START, CDROM_LENGTH).contains(physical_address) {
            return Ok(0x00);
        }
        if let Some(offset) = Range::new(GPU_START, GPU_LENGTH).contains(physical_address) {
            return Ok(self.gpu.read_u8(offset));
        }
        if let Some(_offset) = Range::new(MDEC_START, MDEC_LENGTH).contains(physical_address) {
            return Ok(0x00);
        }
        if let Some(_offset) = Range::new(SPU_START, SPU_LENGTH).contains(physical_address) {
            return Ok(0x00);
        }
        if let Some(_offset) = Range::new(EXPANSION_REGION_2_START, EXPANSION_REGION_2_LENGTH)
            .contains(physical_address) {
            return Ok(0x00);
        }
        if let Some(_offset) = Range::new(EXPANSION_REGION_3_START, EXPANSION_REGION_3_LENGTH)
            .contains(physical_address) {
            return Ok(0x00);
        }
        if let Some(offset) = Range::new(BIOS_START, BIOS_LENGTH).contains(physical_address) {
            return Ok(self.bios.read_u8(offset));
        }
        if let Some(_offset) = Range::new(MEMORY_CONTROL_3_START, MEMORY_CONTROL_3_LENGTH).contains(
            physical_address,
        ) {
            return Ok(0x00);
        }
        Err(Abort::UnmappedRead { address: physical_address })
    }

    /// Writes a byte at a virtual address, routed through the decode table.
    /// A write into the DMA window may start a transfer that runs to
    /// completion before this call returns.
    pub fn write_u8(&mut self, address: u32, value: u8) -> (r: Result<(), Abort>)
        requires
            bus_wf(old(self)@),
        ensures
            bus_wf(final(self)@),
            final(self)@ == bus_write8_spec(old(self)@, address, value).0,
            matches_abort(r, bus_write8_spec(old(self)@, address, value).1),
    {
        let physical_address = Bus::mask_address(address);

        if let Some(offset) = Range::new(RAM_START, RAM_LENGTH).contains(physical_address) {
            self.ram.write_u8(offset % (RAM_SIZE as u32), value);
            return Ok(());
        }
        if let Some(_offset) = Range::new(EXPANSION_REGION_1_START, EXPANSION_REGION_1_LENGTH)
            .contains(physical_address) {
            return Ok(());
        }
        if let Some(_offset) = Range::new(SCRATCHPAD_START, SCRATCHPAD_LENGTH).contains(
            physical_address,
        ) {
            return Ok(());
        }
        if let Some(_offset) = Range::new(MEMORY_CONTROL_1_START, MEMORY_CONTROL_1_LENGTH).contains(
            physical_address,
        ) {
            return Ok(());
        }
        if let Some(_offset) = Range::new(PERIPHERAL_IO_START, PERIPHERAL_IO_LENGTH).contains(
            physical_address,
        ) {
            return Ok(());
        }
        if let Some(_offset) = Range::new(MEMORY_CONTROL_2_START, MEMORY_CONTROL_2_LENGTH).contains(
            physical_address,
        ) {
            return Ok(());
        }
        if let Some(_offset) = Range::new(INTERRUPT_CONTROL_START, INTERRUPT_CONTROL_LENGTH)
            .contains(physical_address) {
            return Ok(());
        }
        if let Some(offset) = Range::new(DMA_REGISTERS_START, DMA_REGISTERS_LENGTH).contains(
            physical_address,
        ) {
            return self.write_u8_dma(offset, value);
        }
        if let Some(_offset) = Range::new(TIMERS_START, TIMERS_LENGTH).contains(physical_address) {
            return Ok(());
        }
        if let Some(_offset) = Range::new(CDROM_START, CDROM_LENGTH).contains(physical_address) {
            return Ok(());
        }
        if let Some(offset) = Range::new(GPU_START, GPU_LENGTH).contains(physical_address) {
            return self.gpu.write_u8(offset, value);
        }
        if let Some(_offset) = Range::new(MDEC_START, MDEC_LENGTH).contains(physical_address) {
            return Ok(());
        }
        if let Some(_offset) = Range::new(SPU_START, SPU_LENGTH).contains(physical_address) {
            return Ok(());
        }
        if let Some(_offset) = Range::new(EXPANSION_REGION_2_START, EXPANSION_REGION_2_LENGTH)
            .contains(physical_address) {
            return Ok(());
        }
        if let Some(_offset) = Range::new(EXPANSION_REGION_3_START, EXPANSION_REGION_3_LENGTH)
            .contains(physical_address) {
            return Ok(());
        }
        if let Some(offset) = Range::new(BIOS_START, BIOS_LENGTH).contains(physical_address) {
            self.bios.write_u8(offset, value);
            return Ok(());
        }
        if let Some(_offset) = Range::new(MEMORY_CONTROL_3_START, MEMORY_CONTROL_3_LENGTH).contains(
            physical_address,
        ) {
            return Ok(());
        }
        Err(Abort::UnmappedWrite { address: physical_address })
    }

    /// Writes a byte of the DMA register block and, when the write leaves
    /// the addressed channel ready, runs its transfer at once.
    fn write_u8_dma(&mut self, offset: u32, value: u8) -> (r: Result<(), Abort>)
        requires
            bus_wf(old(self)@),
        ensures
            bus_wf(final(self)@),
            final(self)@ == bus_write8_dma_spec(old(self)@, offset, value).0
                && final(self)@.bios == old(self)@.bios && final(self)@.gpu == old(self)@.gpu,
            matches_abort(r, bus_write8_dma_spec(old(self)@, offset, value).1),
    {
        let res = self.dma.write_u8(offset, value);
        if let Err(a) = res {
            return Err(a);
        }
        let sub = offset & 0xf;
        if offset < 0x70 && sub <= 0x0c {
            proof {
                crate::dma::lemma_channel_id_in_range(offset);
            }
            let id = Dma::channel_id(offset);
            let mut ch = self.dma.channel(id);
            if ch.ready() {
                let transfer = ch.start_transfer(&mut self.ram);
                self.dma.set_channel(id, ch);
                return transfer;
            }
        }
        Ok(())
    }

    /// Reads the half-word at a 2-aligned virtual address, two bytes in
    /// little-endian address order.
    pub fn read_u16(&self, address: u32) -> (r: Result<u16, Abort>)
        requires
            bus_wf(self@),
            address % 2 == 0,
        ensures
            r == bus_read16_spec(self@, address),
    {
        let byte_0 = match self.read_u8(address) {
            Ok(b) => b,
            Err(a) => {
                return Err(a);
            },
        };
        let byte_1 = match self.read_u8(address + 1) {
            Ok(b) => b,
            Err(a) => {
                return Err(a);
            },
        };
        Ok(crate::words::half_from_bytes(byte_0, byte_1))
    }

    /// Reads the word at a 4-aligned virtual address, four bytes in
    /// little-endian address order.
    pub fn read_u32(&self, address: u32) -> (r: Result<u32, Abort>)
        requires
            bus_wf(self@),
            address % 4 == 0,
        ensures
            r == bus_read32_spec(self@, address),
    {
        let byte_0 = match self.read_u8(address) {
            Ok(b) => b,
            Err(a) => {
                return Err(a);
            },
        };
        let byte_1 = match self.read_u8(address + 1) {
            Ok(b) => b,
            Err(a) => {
                return Err(a);
            },
        };
        let byte_2 = match self.read_u8(address + 2) {
            Ok(b) => b,
            Err(a) => {
                return Err(a);
            },
        };
        let byte_3 = match self.read_u8(address + 3) {
            Ok(b) => b,
            Err(a) => {
                return Err(a);
            },
        };
        Ok(crate::words::word_from_bytes(byte_0, byte_1, byte_2, byte_3))
    }

    /// Writes a half-word at a 2-aligned virtual address, two bytes in
    /// little-endian address order.
    pub fn write_u16(&mut self, address: u32, value: u16) -> (r: Result<(), Abort>)
        requires
            bus_wf(old(self)@),
            address % 2 == 0,
        ensures
            bus_wf(final(self)@),
            final(self)@ == bus_write16_spec(old(self)@, address, value).0,
            matches_abort(r, bus_write16_spec(old(self)@, address, value).1),
    {
        let byte_0 = crate::words::half_get_byte(value, 0);
        let byte_1 = crate::words::half_get_byte(value, 1);
        self.write_u8(address, byte_0)?;
        self.write_u8(address + 1, byte_1)?;
        Ok(())
    }

    /// Writes a word at a 4-aligned virtual address, four bytes in
    /// little-endian address order.
    pub fn write_u32(&mut self, address: u32, value: u32) -> (r: Result<(), Abort>)
        requires
            bus_wf(old(self)@),
            address % 4 == 0,
        ensures
            bus_wf(final(self)@),
            final(self)@ == bus_write32_spec(old(self)@, address, value).0,
            matches_abort(r, bus_write32_spec(old(self)@, address, value).1),
    {
        let byte_0 = word_get_byte(value, 0);
        let byte_1 = word_get_byte(value, 1);
        let byte_2 = word_get_byte(value, 2);
        let byte_3 = word_get_byte(value, 3);
        self.write_u8(address, byte_0)?;
        self.write_u8(address + 1, byte_1)?;
        self.write_u8(address + 2, byte_2)?;
        self.write_u8(address + 3, byte_3)?;
        Ok(())
    }
}

} // verus!
