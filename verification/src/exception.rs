//! The architectural exceptions the CPU can raise and the codes they write
//! into the CAUSE register. Unlike an abort, an exception is handled in-core
//! by the exception dispatch and never surfaces to the embedder.

use vstd::prelude::*;

verus! {

/// An architectural exception of the CPU.
#[derive(Clone, Copy, Debug, PartialEq, Eq, Structural)]
pub enum Exception {
    /// Interrupt.
    Int,
    /// TLB modification.
    Mod,
    /// TLB load.
    Tlbl,
    /// TLB store.
    Tlbs,
    /// Address error on a data load or an instruction fetch.
    Adel,
    /// Address error on a data store.
    Ades,
    /// Bus error on an instruction fetch.
    Ibe,
    /// Bus error on a data load or store.
    Dbe,
    /// The syscall instruction.
    Syscall,
    /// The breakpoint instruction.
    Bp,
    /// A reserved instruction.
    Ri,
    /// A coprocessor that cannot be used.
    Cpu,
    /// Arithmetic overflow.
    Ov,
}

/// The code an exception writes into the CAUSE register.
pub open spec fn exception_code(e: Exception) -> u32 {
    match e {
        Exception::Int => 0x00,
        Exception::Mod => 0x01,
        Exception::Tlbl => 0x02,
        Exception::Tlbs => 0x03,
        Exception::Adel => 0x04,
        Exception::Ades => 0x05,
        Exception::Ibe => 0x06,
        Exception::Dbe => 0x07,
        Exception::Syscall => 0x08,
        Exception::Bp => 0x09,
        Exception::Ri => 0x0a,
        Exception::Cpu => 0x0b,
        Exception::Ov => 0x0c,
    }
}

impl Exception {
    /// The code this exception writes into the CAUSE register.
    pub fn code(&self) -> (r: u32)
        ensures
            r == exception_code(*self),
            r < 32,
    {
        match *self {
            Exception::Int => 0x00,
            Exception::Mod => 0x01,
            Exception::Tlbl => 0x02,
            Exception::Tlbs => 0x03,
            Exception::Adel => 0x04,
            Exception::Ades => 0x05,
            Exception::Ibe => 0x06,
            Exception::Dbe => 0x07,
            Exception::Syscall => 0x08,
            Exception::Bp => 0x09,
            Exception::Ri => 0x0a,
            Exception::Cpu => 0x0b,
            Exception::Ov => 0x0c,
        }
    }
}

} // verus!
