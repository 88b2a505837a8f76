//! A half-open address range `[start, start + length)`, the unit of the bus's
//! decode table.

use vstd::prelude::*;

verus! {

/// A half-open physical address range.
#[derive(Clone, Copy, Debug, PartialEq, Eq, Structural)]
pub struct Range {
    /// The first address of the range.
    pub start: u32,
    /// The number of addresses the range covers.
    pub length: u32,
}

/// Whether `address` falls inside `[start, start + length)`.
pub open spec fn range_contains(start: u32, length: u32, address: u32) -> bool {
    start <= address < start + length
}

impl Range {
    /// Creates the range `[start, start + length)`.
    pub fn new(start: u32, length: u32) -> (r: Range)
        ensures
            r.start == start,
            r.length == length,
    {
        Range { start, length }
    }

    /// The offset of `address` within the range, or `None` when the address
    /// falls outside it.
    pub fn contains(&self, address: u32) -> (r: Option<u32>)
        requires
            self.start + self.length <= u32::MAX + 1,
        ensures
            range_contains(self.start, self.length, address) ==> r == Some(
                (address - self.start) as u32,
            ),
            !range_contains(self.start, self.length, address) ==> r is None,
    {
        if address >= self.start && address - self.start < self.length {
            Some(address - self.start)
        } else {
            None
        }
    }
}

} // verus!
