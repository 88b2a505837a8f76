//! The DMA controller: seven channels, a global control word and an
//! interrupt word, addressed as a 128-byte register block.

use vstd::prelude::*;

use crate::abort::Abort;
use crate::channel::{channel_init, channel_read_spec, channel_write_spec, Channel, Id};
use crate::words::{word_byte, word_get_byte, word_set_byte, word_with_byte};

verus! {

/// The reset value of the global DMA control word.
pub const DPCR_RESET: u32 = 0x07654321;

/// The mathematical view of the DMA controller.
pub struct DmaView {
    /// The DPCR control word.
    pub control: u32,
    /// The DICR interrupt word.
    pub interrupt: u32,
    /// The seven channels, in channel order.
    pub channels: Seq<Channel>,
}

/// The DMA controller component.
#[derive(Clone, Debug)]
pub struct Dma {
    /// The DPCR control word.
    pub control: u32,
    /// The DICR interrupt word.
    pub interrupt: u32,
    /// The seven channels, in channel order.
    pub channels: Vec<Channel>,
}

impl View for Dma {
    type V = DmaView;

    open spec fn view(&self) -> DmaView {
        DmaView { control: self.control, interrupt: self.interrupt, channels: self.channels@ }
    }
}

/// The controller holds exactly seven channels, each knowing its place.
pub open spec fn dma_wf(d: DmaView) -> bool {
    d.channels.len() == 7
}

/// The controller as built at boot.
pub open spec fn dma_init() -> DmaView {
    DmaView {
        control: DPCR_RESET,
        interrupt: 0,
        channels: seq![
            channel_init(Id::MacroBlockIn),
            channel_init(Id::MacroBlockOut),
            channel_init(Id::Gpu),
            channel_init(Id::Cdrom),
            channel_init(Id::Spu),
            channel_init(Id::Pio),
            channel_init(Id::Otc),
        ],
    }
}

/// Whether a register-block offset falls in a channel's register bytes
/// rather than the control words or a hole.
pub open spec fn dma_channel_offset(offset: u32) -> bool {
    offset < 0x70 && (offset & 0xf) <= 0x0c
}

/// The channel number a register-block offset belongs to.
pub open spec fn spec_channel_id(offset: u32) -> u8 {
    ((offset >> 4) & 0xf) as u8
}

/// The byte a read of the register block returns at the given offset.
pub open spec fn dma_read_spec(d: DmaView, offset: u32) -> Result<u8, Abort> {
    if dma_channel_offset(offset) {
        channel_read_spec(d.channels[spec_channel_id(offset) as int], offset & 0xf)
    } else if 0x70 <= offset <= 0x73 {
        Ok(word_byte(d.control, (offset - 0x70) as u32))
    } else if 0x74 <= offset <= 0x77 {
        Ok(word_byte(d.interrupt, (offset - 0x74) as u32))
    } else {
        Err(Abort::UnmappedDmaRead { offset })
    }
}

/// The controller after a byte write at the given offset.
pub open spec fn dma_write_spec(d: DmaView, offset: u32, value: u8) -> Result<DmaView, Abort> {
    if dma_channel_offset(offset) {
        let id = spec_channel_id(offset) as int;
        match channel_write_spec(d.channels[id], offset & 0xf, value) {
            Ok(c2) => Ok(DmaView { channels: d.channels.update(id, c2), ..d }),
            Err(a) => Err(a),
        }
    } else if 0x70 <= offset <= 0x73 {
        Ok(DmaView { control: word_with_byte(d.control, (offset - 0x70) as u32, value), ..d })
    } else if 0x74 <= offset <= 0x77 {
        Ok(DmaView { interrupt: word_with_byte(d.interrupt, (offset - 0x74) as u32, value), ..d })
    } else {
        Err(Abort::UnmappedDmaWrite { offset })
    }
}

/// A channel offset below 0x70 names one of the seven channels.
pub proof fn lemma_channel_id_in_range(offset: u32)
    requires
        offset < 0x70,
    ensures
        spec_channel_id(offset) < 7,
        (offset & 0xf) < 0x10,
{
    assert(offset < 0x70 ==> ((offset >> 4) & 0xf) < 7) by (bit_vector);
    assert((offset & 0xf) < 0x10) by (bit_vector);
}

impl Dma {
    /// Creates the DMA controller with its reset register values.
    pub fn new() -> (r: Dma)
        ensures
            r@ == dma_init(),
            dma_wf(r@),
    {
        let mut channels: Vec<Channel> = Vec::new();
        channels.push(Channel::new(Id::MacroBlockIn));
        channels.push(Channel::new(Id::MacroBlockOut));
        channels.push(Channel::new(Id::Gpu));
        channels.push(Channel::new(Id::Cdrom));
        channels.push(Channel::new(Id::Spu));
        channels.push(Channel::new(Id::Pio));
        channels.push(Channel::new(Id::Otc));
        let r = Dma { control: DPCR_RESET, interrupt: 0, channels };
        proof {
            assert(r@.channels =~= dma_init().channels);
        }
        r
    }

    /// The channel number a register-block offset belongs to.
    pub fn channel_id(offset: u32) -> (r: u8)
        ensures
            r == spec_channel_id(offset),
            r < 16,
    {
        proof {
            assert(((offset >> 4) & 0xf) < 16) by (bit_vector);
        }
        ((offset >> 4) & 0xf) as u8
    }

    /// A copy of the channel with the given number.
    pub fn channel(&self, id: u8) -> (r: Channel)
        requires
            dma_wf(self@),
            id < 7,
        ensures
            r == self@.channels[id as int],
    {
        self.channels[id as usize]
    }

    /// Replaces the channel with the given number.
    pub fn set_channel(&mut self, id: u8, channel: Channel)
        requires
            dma_wf(old(self)@),
            id < 7,
        ensures
            (final(self)@ == DmaView {
                channels: old(self)@.channels.update(id as int, channel),
                ..old(self)@
            }),
            dma_wf(final(self)@),
    {
        self.channels.set(id as usize, channel);
    }

    /// Reads one byte of the register block: a channel's registers, the
    /// control word, or the interrupt word. Other offsets are holes.
    pub fn read_u8(&self, offset: u32) -> (r: Result<u8, Abort>)
        requires
            dma_wf(self@),
        ensures
            r == dma_read_spec(self@, offset),
    {
        if offset < 0x70 {
            let sub = offset & 0xf;
            proof {
                lemma_channel_id_in_range(offset);
            }
            if sub <= 0x0c {
                let id = Dma::channel_id(offset);
                self.channels[id as usize].read_u8(sub)
            } else {
                Err(Abort::UnmappedDmaRead { offset })
            }
        } else if offset <= 0x73 {
            Ok(word_get_byte(self.control, offset - 0x70))
        } else if offset <= 0x77 {
            Ok(word_get_byte(self.interrupt, offset - 0x74))
        } else {
            Err(Abort::UnmappedDmaRead { offset })
        }
    }

    /// Writes one byte of the register block. A write into a hole is
    /// unresolvable and leaves the controller unchanged.
    pub fn write_u8(&mut self, offset: u32, value: u8) -> (r: Result<(), Abort>)
        requires
            dma_wf(old(self)@),
        ensures
            dma_wf(final(self)@),
            match dma_write_spec(old(self)@, offset, value) {
                Ok(d2) => r is Ok && final(self)@ == d2,
                Err(a) => r == Err::<(), Abort>(a) && final(self)@ == old(self)@,
            },
    {
        if offset < 0x70 {
            let sub = offset & 0xf;
            proof {
                lemma_channel_id_in_range(offset);
            }
            if sub <= 0x0c {
                let id = Dma::channel_id(offset);
                let mut ch = self.channels[id as usize];
                let res = ch.write_u8(sub, value);
                match res {
                    Ok(_) => {
                        self.channels.set(id as usize, ch);
                        Ok(())
                    },
                    Err(a) => {
                        proof {
                            assert(old(self)@.channels =~= self@.channels);
                        }
                        Err(a)
                    },
                }
            } else {
                Err(Abort::UnmappedDmaWrite { offset })
            }
        } else if offset <= 0x73 {
            self.control = word_set_byte(self.control, offset - 0x70, value);
            Ok(())
        } else if offset <= 0x77 {
            self.interrupt = word_set_byte(self.interrupt, offset - 0x74, value);
            Ok(())
        } else {
            Err(Abort::UnmappedDmaWrite { offset })
        }
    }
}

} // verus!
