//! Typed storage regions and the byte-addressable contract over them. RAM is
//! a 2 MiB mutable array, the BIOS a 512 KiB image that is read-only after
//! construction and absorbs writes.

use vstd::prelude::*;

verus! {

/// The number of bytes of main RAM.
pub const RAM_SIZE: usize = 2048 * 1024;

/// The number of bytes of the BIOS image.
pub const BIOS_SIZE: usize = 512 * 1024;

/// The `Memory` trait is the uniform byte-addressable contract over a typed
/// storage region: a view of its bytes, and what a write leaves behind.
pub trait Memory: Sized {
    /// The bytes the region holds, in address order.
    spec fn mem_view(&self) -> Seq<u8>;

    /// The bytes after a write of `value` at `offset`: an update for a
    /// mutable region, the old bytes for one that absorbs writes.
    spec fn mem_after_write(&self, offset: int, value: u8) -> Seq<u8>;

    /// Writes a byte at a relative offset.
    fn write_u8(&mut self, offset: u32, value: u8)
        requires
            offset < old(self).mem_view().len(),
        ensures
            final(self).mem_view() == old(self).mem_after_write(offset as int, value),
    ;

    /// Reads the byte at a relative offset.
    fn read_u8(&self, offset: u32) -> (r: u8)
        requires
            offset < self.mem_view().len(),
        ensures
            r == self.mem_view()[offset as int],
    ;
}

/// The RAM component: 2 MiB of zero-initialised, mutable bytes.
#[derive(Clone, Debug)]
pub struct Ram {
    /// The bytes of the RAM.
    pub data: Vec<u8>,
}

impl Ram {
    /// The RAM holds exactly its fixed number of bytes.
    pub open spec fn wf(&self) -> bool {
        self.data@.len() == RAM_SIZE
    }

    /// Creates the RAM component, zero-initialised.
    pub fn new() -> (r: Ram)
        ensures
            r.wf(),
            r.data@ == Seq::<u8>::new(RAM_SIZE as nat, |i: int| 0u8),
    {
        let mut data: Vec<u8> = Vec::new();
        let mut i: usize = 0;
        while i < RAM_SIZE
            invariant
                i <= RAM_SIZE,
                data@ == Seq::<u8>::new(i as nat, |j: int| 0u8),
            decreases RAM_SIZE - i,
        {
            data.push(0);
            i = i + 1;
            proof {
                assert(data@ =~= Seq::<u8>::new(i as nat, |j: int| 0u8));
            }
        }
        Ram { data }
    }
}

impl Memory for Ram {
    open spec fn mem_view(&self) -> Seq<u8> {
        self.data@
    }

    open spec fn mem_after_write(&self, offset: int, value: u8) -> Seq<u8> {
        self.data@.update(offset, value)
    }

    fn write_u8(&mut self, offset: u32, value: u8) {
        self.data.set(offset as usize, value);
    }

    fn read_u8(&self, offset: u32) -> u8 {
        self.data[offset as usize]
    }
}

/// The BIOS component: the boot firmware image, immutable after
/// construction. Writes inside its range are absorbed.
#[derive(Clone, Debug)]
pub struct Bios {
    /// The bytes of the firmware image.
    pub data: Vec<u8>,
}

impl Bios {
    /// The image holds exactly the fixed firmware size.
    pub open spec fn wf(&self) -> bool {
        self.data@.len() == BIOS_SIZE
    }

    /// Creates the BIOS component from an already loaded image. Reading the
    /// image from the host is the embedder's concern; the core only asks
    /// that the image has the firmware's full size.
    pub fn new(data: Vec<u8>) -> (r: Bios)
        requires
            data@.len() == BIOS_SIZE,
        ensures
            r.wf(),
            r.data@ == data@,
    {
        Bios { data }
    }
}

impl Memory for Bios {
    open spec fn mem_view(&self) -> Seq<u8> {
        self.data@
    }

    open spec fn mem_after_write(&self, offset: int, value: u8) -> Seq<u8> {
        self.data@
    }

    /// The BIOS is read-only: a write inside the range is absorbed.
    fn write_u8(&mut self, offset: u32, value: u8) {
    }

    fn read_u8(&self, offset: u32) -> u8 {
        self.data[offset as usize]
    }
}

} // verus!
