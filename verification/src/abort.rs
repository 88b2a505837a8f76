//! Unresolvable machine states. The console has no recovery for these: the
//! host that drives the core is expected to stop with a diagnostic. They are
//! distinct from architectural exceptions, which the CPU handles in-core.

use vstd::prelude::*;

verus! {

/// A condition that the core cannot resolve: an access outside the decode
/// table, an unimplemented opcode or transfer, or an unaligned program
/// counter. Each variant carries what a diagnostic needs.
#[derive(Clone, Copy, Debug, PartialEq, Eq, Structural)]
pub enum Abort {
    /// The program counter is not aligned to a word boundary.
    UnalignedProgramCounter { pc: u32 },
    /// A read from a physical address that no decode-table range covers.
    UnmappedRead { address: u32 },
    /// A write to a physical address that no decode-table range covers.
    UnmappedWrite { address: u32 },
    /// A read from a hole in the DMA register block.
    UnmappedDmaRead { offset: u32 },
    /// A write into a hole in the DMA register block.
    UnmappedDmaWrite { offset: u32 },
    /// An instruction whose opcode the core does not implement, with the
    /// instruction word and the address it was fetched from.
    UnimplementedInstruction { word: u32, pc: u32 },
    /// A GP0 command word whose opcode the front-end does not implement.
    UnimplementedGp0 { word: u32 },
    /// A GP1 command word whose opcode the front-end does not implement.
    UnimplementedGp1 { word: u32 },
    /// A draw-mode setting that asks for the reserved texture color depth.
    ReservedTextureDepth { word: u32 },
    /// A write of the reserved sync-mode encoding to a channel control byte.
    ReservedDmaSyncMode { value: u8 },
    /// A transfer started on a channel whose sync mode is not implemented.
    UnimplementedDmaSync { channel: u32 },
    /// An immediate-mode transfer on a channel other than the
    /// ordering-table-clear channel.
    UnimplementedDmaTransfer { channel: u32 },
    /// A DMA transfer stepped outside the RAM array.
    DmaOutOfBounds { address: u32 },
}

/// Whether a call's result reports exactly the abort of a transition's
/// outcome: success when there is none, that abort otherwise.
pub open spec fn matches_abort<A>(r: Result<A, Abort>, abort: Option<Abort>) -> bool {
    match abort {
        None => r is Ok,
        Some(a) => r == Err::<A, Abort>(a),
    }
}

} // verus!
