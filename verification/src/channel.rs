//! One DMA channel: its register block of base address, block size and count,
//! and channel control, decoded byte by byte, plus the immediate-mode
//! transfer of the ordering-table-clear channel.

use vstd::prelude::*;

use crate::abort::Abort;
use crate::mem::{Memory, Ram, RAM_SIZE};
use crate::words::{half_byte, half_get_byte, half_set_byte, half_with_byte, word_byte, word_get_byte, word_set_byte, word_with_byte};

verus! {

/// The function a channel serves, by its fixed number.
#[derive(Clone, Copy, Debug, PartialEq, Eq, Structural)]
pub enum Id {
    /// Channel 0: macro block input.
    MacroBlockIn,
    /// Channel 1: macro block output.
    MacroBlockOut,
    /// Channel 2: GPU data.
    Gpu,
    /// Channel 3: CDROM data.
    Cdrom,
    /// Channel 4: SPU data.
    Spu,
    /// Channel 5: expansion port.
    Pio,
    /// Channel 6: ordering-table clear.
    Otc,
}

/// The channel number an id stands for.
pub open spec fn id_number(id: Id) -> u32 {
    match id {
        Id::MacroBlockIn => 0,
        Id::MacroBlockOut => 1,
        Id::Gpu => 2,
        Id::Cdrom => 3,
        Id::Spu => 4,
        Id::Pio => 5,
        Id::Otc => 6,
    }
}

/// The transfer direction of a channel.
#[derive(Clone, Copy, Debug, PartialEq, Eq, Structural)]
pub enum TransferDirection {
    /// The device writes to main RAM.
    ToRam,
    /// The device reads from main RAM.
    FromRam,
}

/// How the memory address advances between words of a transfer.
#[derive(Clone, Copy, Debug, PartialEq, Eq, Structural)]
pub enum MemoryAddressStep {
    /// Forwards, by four bytes.
    Forward,
    /// Backwards, by four bytes.
    Backward,
}

/// Whether the transfer is chopped into windows.
#[derive(Clone, Copy, Debug, PartialEq, Eq, Structural)]
pub enum ChoppingMode {
    /// One uninterrupted transfer.
    Normal,
    /// Alternating DMA and CPU windows.
    Chopping,
}

/// How a transfer is synchronised with the device.
#[derive(Clone, Copy, Debug, PartialEq, Eq, Structural)]
pub enum SyncMode {
    /// Immediately and all at once.
    Immediately,
    /// Block by block, on device requests.
    SyncBlocks,
    /// Following a linked list of headers.
    LinkedList,
}

/// Whether the channel is running.
#[derive(Clone, Copy, Debug, PartialEq, Eq, Structural)]
pub enum Busy {
    /// No transfer in flight.
    Completed,
    /// A transfer is enabled.
    Busy,
}

/// Whether a transfer is started by hand.
#[derive(Clone, Copy, Debug, PartialEq, Eq, Structural)]
pub enum Trigger {
    /// Started by the device.
    Normal,
    /// Started by the manual trigger bit.
    ManualStart,
}

/// The pause flag of a channel; its effect is not modelled.
#[derive(Clone, Copy, Debug, PartialEq, Eq, Structural)]
pub enum UnknownPause {
    /// Not paused.
    No,
    /// Paused.
    Pause,
}

/// One DMA channel's register block.
#[derive(Clone, Copy, Debug, PartialEq, Eq, Structural)]
pub struct Channel {
    /// Which channel this is.
    pub id: Id,
    /// The 24-bit base memory address.
    pub base_address: u32,
    /// The size of a block in words; immediate transfers use it as their
    /// word count.
    pub block_size: u16,
    /// The number of blocks of a sync-mode transfer.
    pub block_count: u16,
    /// The transfer direction.
    pub transfer_direction: TransferDirection,
    /// The memory address step.
    pub memory_address_step: MemoryAddressStep,
    /// The chopping mode.
    pub chopping_mode: ChoppingMode,
    /// The sync mode.
    pub sync_mode: SyncMode,
    /// The 3-bit chopping DMA window size.
    pub chopping_dma_window_size: u8,
    /// The 3-bit chopping CPU window size.
    pub chopping_cpu_window_size: u8,
    /// The busy flag.
    pub busy: Busy,
    /// The manual trigger flag.
    pub trigger: Trigger,
    /// The pause flag.
    pub unknown_pause: UnknownPause,
    /// A miscellaneous control bit with no modelled effect.
    pub unknown: bool,
}

/// The one-bit encoding of a transfer direction.
pub open spec fn direction_bit(d: TransferDirection) -> u8 {
    match d {
        TransferDirection::ToRam => 0,
        TransferDirection::FromRam => 1,
    }
}

/// The one-bit encoding of an address step.
pub open spec fn step_bit(s: MemoryAddressStep) -> u8 {
    match s {
        MemoryAddressStep::Forward => 0,
        MemoryAddressStep::Backward => 1,
    }
}

/// The one-bit encoding of a chopping mode.
pub open spec fn chopping_bit(c: ChoppingMode) -> u8 {
    match c {
        ChoppingMode::Normal => 0,
        ChoppingMode::Chopping => 1,
    }
}

/// The two-bit encoding of a sync mode.
pub open spec fn sync_bits(s: SyncMode) -> u8 {
    match s {
        SyncMode::Immediately => 0,
        SyncMode::SyncBlocks => 1,
        SyncMode::LinkedList => 2,
    }
}

/// The one-bit encoding of the busy flag.
pub open spec fn busy_bit(b: Busy) -> u8 {
    match b {
        Busy::Completed => 0,
        Busy::Busy => 1,
    }
}

/// The one-bit encoding of the trigger flag.
pub open spec fn trigger_bit(t: Trigger) -> u8 {
    match t {
        Trigger::Normal => 0,
        Trigger::ManualStart => 1,
    }
}

/// The one-bit encoding of the pause flag.
pub open spec fn pause_bit(p: UnknownPause) -> u8 {
    match p {
        UnknownPause::No => 0,
        UnknownPause::Pause => 1,
    }
}

/// The channel a freshly reset controller holds under the given id: all
/// registers zero, nothing enabled.
pub open spec fn channel_init(id: Id) -> Channel {
    Channel {
        id,
        base_address: 0,
        block_size: 0,
        block_count: 0,
        transfer_direction: TransferDirection::ToRam,
        memory_address_step: MemoryAddressStep::Forward,
        chopping_mode: ChoppingMode::Normal,
        sync_mode: SyncMode::Immediately,
        chopping_dma_window_size: 0,
        chopping_cpu_window_size: 0,
        busy: Busy::Completed,
        trigger: Trigger::Normal,
        unknown_pause: UnknownPause::No,
        unknown: false,
    }
}

/// A channel is ready to transfer when it is busy and either its sync mode
/// is not immediate or the manual trigger is set.
pub open spec fn channel_ready(c: Channel) -> bool {
    c.busy == Busy::Busy && (c.sync_mode != SyncMode::Immediately || c.trigger
        == Trigger::ManualStart)
}

/// The channel after a finished transfer: busy and trigger cleared.
pub open spec fn channel_finished(c: Channel) -> Channel {
    Channel { busy: Busy::Completed, trigger: Trigger::Normal, ..c }
}

/// The byte a read of the channel's register block returns at the given
/// offset. Reserved bits and bytes read as zero; the offsets past the
/// channel-control word are holes.
pub open spec fn channel_read_spec(c: Channel, offset: u32) -> Result<u8, Abort> {
    if offset <= 0x02 {
        Ok(word_byte(c.base_address, offset))
    } else if offset == 0x03 {
        Ok(0)
    } else if offset <= 0x05 {
        Ok(half_byte(c.block_size, (offset - 0x04) as u32))
    } else if offset <= 0x07 {
        Ok(half_byte(c.block_count, (offset - 0x06) as u32))
    } else if offset == 0x08 {
        Ok(direction_bit(c.transfer_direction) | (step_bit(c.memory_address_step) << 1))
    } else if offset == 0x09 {
        Ok(chopping_bit(c.chopping_mode) | (sync_bits(c.sync_mode) << 1))
    } else if offset == 0x0a {
        Ok(c.chopping_dma_window_size | (c.chopping_cpu_window_size << 4))
    } else if offset == 0x0b {
        Ok(busy_bit(c.busy) | (trigger_bit(c.trigger) << 4) | (pause_bit(c.unknown_pause) << 5) | (
        if c.unknown {
            0x40u8
        } else {
            0u8
        }))
    } else {
        Err(Abort::UnmappedDmaRead { offset })
    }
}

/// The channel after a byte write at the given offset. The top byte of the
/// base address is absorbed, reserved bits are absorbed, and a write of the
/// reserved sync-mode encoding is unresolvable.
pub open spec fn channel_write_spec(c: Channel, offset: u32, value: u8) -> Result<Channel, Abort> {
    if offset <= 0x02 {
        Ok(Channel { base_address: word_with_byte(c.base_address, offset, value), ..c })
    } else if offset == 0x03 {
        Ok(c)
    } else if offset <= 0x05 {
        Ok(Channel { block_size: half_with_byte(c.block_size, (offset - 0x04) as u32, value), ..c })
    } else if offset <= 0x07 {
        Ok(
            Channel {
                block_count: half_with_byte(c.block_count, (offset - 0x06) as u32, value),
                ..c
            },
        )
    } else if offset == 0x08 {
        Ok(
            Channel {
                transfer_direction: if value & 1 == 0 {
                    TransferDirection::ToRam
                } else {
                    TransferDirection::FromRam
                },
                memory_address_step: if (value >> 1) & 1 == 0 {
                    MemoryAddressStep::Forward
                } else {
                    MemoryAddressStep::Backward
                },
                ..c
            },
        )
    } else if offset == 0x09 {
        if (value >> 1) & 3 == 3 {
            Err(Abort::ReservedDmaSyncMode { value })
        } else {
            Ok(
                Channel {
                    chopping_mode: if value & 1 == 0 {
                        ChoppingMode::Normal
                    } else {
                        ChoppingMode::Chopping
                    },
                    sync_mode: if (value >> 1) & 3 == 0 {
                        SyncMode::Immediately
                    } else if (value >> 1) & 3 == 1 {
                        SyncMode::SyncBlocks
                    } else {
                        SyncMode::LinkedList
                    },
                    ..c
                },
            )
        }
    } else if offset == 0x0a {
        Ok(
            Channel {
                chopping_dma_window_size: value & 7,
                chopping_cpu_window_size: (value >> 4) & 7,
                ..c
            },
        )
    } else if offset == 0x0b {
        Ok(
            Channel {
                busy: if value & 1 == 0 {
                    Busy::Completed
                } else {
                    Busy::Busy
                },
                trigger: if (value >> 4) & 1 == 0 {
                    Trigger::Normal
                } else {
                    Trigger::ManualStart
                },
                unknown_pause: if (value >> 5) & 1 == 0 {
                    UnknownPause::No
                } else {
                    UnknownPause::Pause
                },
                unknown: (value >> 6) & 1 != 0,
                ..c
            },
        )
    } else {
        Err(Abort::UnmappedDmaWrite { offset })
    }
}

/// RAM after a 32-bit word is stored little-endian at a byte offset.
pub open spec fn seq_write_word(ram: Seq<u8>, offset: int, value: u32) -> Seq<u8> {
    ram.update(offset, word_byte(value, 0)).update(offset + 1, word_byte(value, 1)).update(
        offset + 2,
        word_byte(value, 2),
    ).update(offset + 3, word_byte(value, 3))
}

/// The remaining iterations of an ordering-table-clear transfer. Each step
/// first advances the address by `step`, then stores the previous address
/// there; the final step stores the end-of-list marker instead. A step that
/// would leave the RAM array is unresolvable and stops the run.
pub open spec fn otc_run(ram: Seq<u8>, address: u32, remaining: int, step: u32) -> (Seq<
    u8,
>, Option<Abort>)
    decreases remaining,
{
    if remaining <= 0 {
        (ram, None)
    } else {
        let next = address.wrapping_add(step);
        let value: u32 = if remaining == 1 {
            0x00ffffff
        } else {
            address
        };
        if next + 3 < RAM_SIZE {
            otc_run(seq_write_word(ram, next as int, value), next, remaining - 1, step)
        } else {
            (ram, Some(Abort::DmaOutOfBounds { address: next }))
        }
    }
}

/// The outcome of starting a transfer on a channel over the given RAM: the
/// RAM afterwards, the channel afterwards, and the abort if the transfer is
/// one the controller does not implement or it left the RAM array.
pub open spec fn channel_transfer_spec(c: Channel, ram: Seq<u8>) -> (Seq<u8>, Channel, Option<
    Abort,
>) {
    if c.sync_mode != SyncMode::Immediately {
        (ram, c, Some(Abort::UnimplementedDmaSync { channel: id_number(c.id) }))
    } else if c.block_size == 0 {
        (ram, channel_finished(c), None)
    } else if c.transfer_direction != TransferDirection::ToRam || c.id != Id::Otc {
        (ram, c, Some(Abort::UnimplementedDmaTransfer { channel: id_number(c.id) }))
    } else {
        let step: u32 = if c.memory_address_step == MemoryAddressStep::Forward {
            4
        } else {
            0xfffffffc
        };
        let (ram2, abort) = otc_run(ram, c.base_address, c.block_size as int, step);
        match abort {
            None => (ram2, channel_finished(c), None),
            Some(a) => (ram2, c, Some(a)),
        }
    }
}

impl Channel {
    /// Creates a channel with everything cleared.
    pub fn new(id: Id) -> (r: Channel)
        ensures
            r == channel_init(id),
    {
        Channel {
            id,
            base_address: 0,
            block_size: 0,
            block_count: 0,
            transfer_direction: TransferDirection::ToRam,
            memory_address_step: MemoryAddressStep::Forward,
            chopping_mode: ChoppingMode::Normal,
            sync_mode: SyncMode::Immediately,
            chopping_dma_window_size: 0,
            chopping_cpu_window_size: 0,
            busy: Busy::Completed,
            trigger: Trigger::Normal,
            unknown_pause: UnknownPause::No,
            unknown: false,
        }
    }

    /// Whether the channel is ready to transfer: it must be busy, and either
    /// its sync mode is not immediate or the manual trigger is set.
    pub fn ready(&self) -> (r: bool)
        ensures
            r == channel_ready(*self),
    {
        if !matches!(self.busy, Busy::Busy) {
            return false;
        }
        if !matches!(self.sync_mode, SyncMode::Immediately) {
            true
        } else {
            matches!(self.trigger, Trigger::ManualStart)
        }
    }

    /// Finishes a transfer: clears the busy and trigger flags.
    pub fn finish(&mut self)
        ensures
            *final(self) == channel_finished(*old(self)),
    {
        self.busy = Busy::Completed;
        self.trigger = Trigger::Normal;
    }

    /// Starts the transfer the channel is configured for. Only immediate
    /// transfers are implemented; others are unresolvable.
    pub fn start_transfer(&mut self, ram: &mut Ram) -> (r: Result<(), Abort>)
        requires
            old(ram).wf(),
        ensures
            final(ram).wf(),
            ({
                let (ram2, c2, abort) = channel_transfer_spec(*old(self), old(ram).data@);
                final(ram).data@ == ram2 && *final(self) == c2 && (match abort {
                    None => r is Ok,
                    Some(a) => r == Err::<(), Abort>(a),
                })
            }),
    {
        match self.sync_mode {
            SyncMode::Immediately => self.transfer_immediately(ram),
            _ => Err(Abort::UnimplementedDmaSync { channel: self.id_index() }),
        }
    }

    /// The channel's number.
    pub fn id_index(&self) -> (r: u32)
        ensures
            r == id_number(self.id),
            r < 7,
    {
        match self.id {
            Id::MacroBlockIn => 0,
            Id::MacroBlockOut => 1,
            Id::Gpu => 2,
            Id::Cdrom => 3,
            Id::Spu => 4,
            Id::Pio => 5,
            Id::Otc => 6,
        }
    }

    /// Runs an immediate transfer to completion: for `block_size` words, the
    /// address is advanced by the step and the previous address is stored
    /// there, the last word being the end-of-list marker. Only the
    /// ordering-table-clear channel can transfer this way.
    #[verifier::loop_isolation(false)]
    pub fn transfer_immediately(&mut self, ram: &mut Ram) -> (r: Result<(), Abort>)
        requires
            old(ram).wf(),
            old(self).sync_mode == SyncMode::Immediately,
        ensures
            final(ram).wf(),
            ({
                let (ram2, c2, abort) = channel_transfer_spec(*old(self), old(ram).data@);
                final(ram).data@ == ram2 && *final(self) == c2 && (match abort {
                    None => r is Ok,
                    Some(a) => r == Err::<(), Abort>(a),
                })
            }),
    {
        let mut remaining: u16 = self.block_size;
        let mut address: u32 = self.base_address;

        if remaining == 0 {
            self.finish();
            return Ok(());
        }
        if !matches!(self.transfer_direction, TransferDirection::ToRam) || !matches!(
            self.id,
            Id::Otc,
        ) {
            return Err(Abort::UnimplementedDmaTransfer { channel: self.id_index() });
        }

        let step: u32 = match self.memory_address_step {
            MemoryAddressStep::Forward => 4,
            MemoryAddressStep::Backward => 0xfffffffc,
        };

        while remaining != 0
            invariant
                ram.wf(),
                otc_run(old(ram).data@, old(self).base_address, old(self).block_size as int, step)
                    == otc_run(ram.data@, address, remaining as int, step),
                *self == *old(self),
            decreases remaining,
        {
            let ghost pre_ram = ram.data@;
            let ghost pre_address = address;
            let prev: u32 = address;
            address = address.wrapping_add(step);
            let value: u32 = if remaining == 1 {
                0x00ffffff
            } else {
                prev
            };
            if !(address < RAM_SIZE as u32 - 3) {
                proof {
                    assert(otc_run(ram.data@, pre_address, remaining as int, step) == (
                        ram.data@,
                        Some(Abort::DmaOutOfBounds { address: address }),
                    ));
                }
                return Err(Abort::DmaOutOfBounds { address });
            }
            ram.write_u8(address, word_get_byte(value, 0));
            ram.write_u8(address + 1, word_get_byte(value, 1));
            ram.write_u8(address + 2, word_get_byte(value, 2));
            ram.write_u8(address + 3, word_get_byte(value, 3));
            proof {
                assert(ram.data@ =~= seq_write_word(pre_ram, address as int, value));
            }
            remaining = remaining - 1;
        }

        self.finish();
        Ok(())
    }

    /// Reads one byte of the channel's register block. Reserved bits read as
    /// zero; offsets past the channel-control word are holes.
    pub fn read_u8(&self, offset: u32) -> (r: Result<u8, Abort>)
        ensures
            r == channel_read_spec(*self, offset),
    {
        if offset <= 0x02 {
            Ok(word_get_byte(self.base_address, offset))
        } else if offset == 0x03 {
            Ok(0)
        } else if offset <= 0x05 {
            Ok(half_get_byte(self.block_size, offset - 0x04))
        } else if offset <= 0x07 {
            Ok(half_get_byte(self.block_count, offset - 0x06))
        } else if offset == 0x08 {
            let d: u8 = match self.transfer_direction {
                TransferDirection::ToRam => 0,
                TransferDirection::FromRam => 1,
            };
            let s: u8 = match self.memory_address_step {
                MemoryAddressStep::Forward => 0,
                MemoryAddressStep::Backward => 1,
            };
            Ok(d | (s << 1))
        } else if offset == 0x09 {
            let ch: u8 = match self.chopping_mode {
                ChoppingMode::Normal => 0,
                ChoppingMode::Chopping => 1,
            };
            let sy: u8 = match self.sync_mode {
                SyncMode::Immediately => 0,
                SyncMode::SyncBlocks => 1,
                SyncMode::LinkedList => 2,
            };
            Ok(ch | (sy << 1))
        } else if offset == 0x0a {
            Ok(self.chopping_dma_window_size | (self.chopping_cpu_window_size << 4))
        } else if offset == 0x0b {
            let b: u8 = match self.busy {
                Busy::Completed => 0,
                Busy::Busy => 1,
            };
            let t: u8 = match self.trigger {
                Trigger::Normal => 0,
                Trigger::ManualStart => 1,
            };
            let p: u8 = match self.unknown_pause {
                UnknownPause::No => 0,
                UnknownPause::Pause => 1,
            };
            let u: u8 = if self.unknown {
                0x40
            } else {
                0
            };
            Ok(b | (t << 4) | (p << 5) | u)
        } else {
            Err(Abort::UnmappedDmaRead { offset })
        }
    }

    /// Writes one byte of the channel's register block. The top byte of the
    /// base address and all reserved bits are absorbed; a write of the
    /// reserved sync-mode encoding, or one aimed past the channel-control
    /// word, is unresolvable and leaves the channel unchanged.
    pub fn write_u8(&mut self, offset: u32, value: u8) -> (r: Result<(), Abort>)
        ensures
            match channel_write_spec(*old(self), offset, value) {
                Ok(c2) => r is Ok && *final(self) == c2,
                Err(a) => r == Err::<(), Abort>(a) && *final(self) == *old(self),
            },
    {
        if offset <= 0x02 {
            self.base_address = word_set_byte(self.base_address, offset, value);
            Ok(())
        } else if offset == 0x03 {
            Ok(())
        } else if offset <= 0x05 {
            self.block_size = half_set_byte(self.block_size, offset - 0x04, value);
            Ok(())
        } else if offset <= 0x07 {
            self.block_count = half_set_byte(self.block_count, offset - 0x06, value);
            Ok(())
        } else if offset == 0x08 {
            self.transfer_direction = if value & 1 == 0 {
                TransferDirection::ToRam
            } else {
                TransferDirection::FromRam
            };
            self.memory_address_step = if (value >> 1) & 1 == 0 {
                MemoryAddressStep::Forward
            } else {
                MemoryAddressStep::Backward
            };
            Ok(())
        } else if offset == 0x09 {
            let sy = (value >> 1) & 3;
            if sy == 3 {
                return Err(Abort::ReservedDmaSyncMode { value });
            }
            self.chopping_mode = if value & 1 == 0 {
                ChoppingMode::Normal
            } else {
                ChoppingMode::Chopping
            };
            self.sync_mode = if sy == 0 {
                SyncMode::Immediately
            } else if sy == 1 {
                SyncMode::SyncBlocks
            } else {
                SyncMode::LinkedList
            };
            Ok(())
        } else if offset == 0x0a {
            self.chopping_dma_window_size = value & 7;
            self.chopping_cpu_window_size = (value >> 4) & 7;
            Ok(())
        } else if offset == 0x0b {
            self.busy = if value & 1 == 0 {
                Busy::Completed
            } else {
                Busy::Busy
            };
            self.trigger = if (value >> 4) & 1 == 0 {
                Trigger::Normal
            } else {
                Trigger::ManualStart
            };
            self.unknown_pause = if (value >> 5) & 1 == 0 {
                UnknownPause::No
            } else {
                UnknownPause::Pause
            };
            self.unknown = (value >> 6) & 1 != 0;
            Ok(())
        } else {
            Err(Abort::UnmappedDmaWrite { offset })
        }
    }
}

} // verus!
