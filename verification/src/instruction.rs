//! The 32-bit MIPS-I instruction word and its field accessors, plus the
//! register-number wrappers used by the CPU. Every accessor is a pure
//! function of the word.

use vstd::prelude::*;

verus! {

/// A general-purpose register number. The decoder only ever produces values
/// below 32.
#[derive(Clone, Copy, Debug, PartialEq, Eq, Structural)]
pub struct RegisterIndex(pub u8);

/// A coprocessor-0 register number. The decoder only ever produces values
/// below 32; the register file holds 64 words.
#[derive(Clone, Copy, Debug, PartialEq, Eq, Structural)]
pub struct CopRegisterIndex(pub u8);

/// An instruction word paired with the program counter it was fetched from.
/// The second field is used for exception reporting.
#[derive(Clone, Copy, Debug, PartialEq, Eq, Structural)]
pub struct Instruction(pub u32, pub u32);

/// The 6-bit primary operation code, bits 31..26.
pub open spec fn spec_op(word: u32) -> u8 {
    ((word >> 26) & 0x3f) as u8
}

/// The 5-bit coprocessor operation code, bits 25..21.
pub open spec fn spec_cop_op(word: u32) -> u8 {
    ((word >> 21) & 0x1f) as u8
}

/// The 5-bit source register, bits 25..21.
pub open spec fn spec_rs(word: u32) -> u8 {
    ((word >> 21) & 0x1f) as u8
}

/// The 5-bit branch condition code, bits 20..16.
pub open spec fn spec_branch_op(word: u32) -> u8 {
    ((word >> 16) & 0x1f) as u8
}

/// The 5-bit target register or branch condition, bits 20..16.
pub open spec fn spec_rt(word: u32) -> u8 {
    ((word >> 16) & 0x1f) as u8
}

/// The 16-bit immediate or displacement, bits 15..0.
pub open spec fn spec_imm(word: u32) -> u16 {
    (word & 0xffff) as u16
}

/// The 26-bit jump target, bits 25..0.
pub open spec fn spec_target(word: u32) -> u32 {
    word & 0x3ffffff
}

/// The 5-bit coprocessor destination register, bits 15..11.
pub open spec fn spec_cop_rd(word: u32) -> u8 {
    ((word >> 11) & 0x1f) as u8
}

/// The 5-bit destination register, bits 15..11.
pub open spec fn spec_rd(word: u32) -> u8 {
    ((word >> 11) & 0x1f) as u8
}

/// The 5-bit shift amount, bits 10..6.
pub open spec fn spec_shamt(word: u32) -> u8 {
    ((word >> 6) & 0x1f) as u8
}

/// The 6-bit function field, bits 5..0.
pub open spec fn spec_funct(word: u32) -> u8 {
    (word & 0x3f) as u8
}

/// Every 5-bit register field names one of the 32 general registers, and
/// every coprocessor field one of the first 32 coprocessor words.
pub proof fn lemma_decode_fields_in_range(word: u32)
    ensures
        spec_op(word) < 64,
        spec_funct(word) < 64,
        spec_rs(word) < 32,
        spec_rt(word) < 32,
        spec_rd(word) < 32,
        spec_shamt(word) < 32,
        spec_cop_op(word) < 32,
        spec_cop_rd(word) < 32,
        spec_branch_op(word) < 32,
        spec_target(word) < 0x4000000,
{
    assert(((word >> 26) & 0x3f) < 64 && (word & 0x3f) < 64 && ((word >> 21) & 0x1f) < 32 && ((
    word >> 16) & 0x1f) < 32 && ((word >> 11) & 0x1f) < 32 && ((word >> 6) & 0x1f) < 32 && (word
        & 0x3ffffff) < 0x4000000) by (bit_vector);
}

impl Instruction {
    /// Returns the 6-bit primary operation code (bits 31..26).
    pub fn op(&self) -> (r: u8)
        ensures
            r == spec_op(self.0),
    {
        ((self.0 >> 26) & 0x3f) as u8
    }

    /// Returns the 5-bit coprocessor operation code (bits 25..21).
    pub fn cop_op(&self) -> (r: u8)
        ensures
            r == spec_cop_op(self.0),
    {
        ((self.0 >> 21) & 0x1f) as u8
    }

    /// Returns the 5-bit source register (bits 25..21).
    pub fn rs(&self) -> (r: RegisterIndex)
        ensures
            r == RegisterIndex(spec_rs(self.0)),
            r.0 < 32,
    {
        proof {
            lemma_decode_fields_in_range(self.0);
        }
        RegisterIndex(((self.0 >> 21) & 0x1f) as u8)
    }

    /// Returns the 5-bit branch condition code (bits 20..16).
    pub fn branch_op(&self) -> (r: u8)
        ensures
            r == spec_branch_op(self.0),
    {
        ((self.0 >> 16) & 0x1f) as u8
    }

    /// Returns the 5-bit target register (bits 20..16).
    pub fn rt(&self) -> (r: RegisterIndex)
        ensures
            r == RegisterIndex(spec_rt(self.0)),
            r.0 < 32,
    {
        proof {
            lemma_decode_fields_in_range(self.0);
        }
        RegisterIndex(((self.0 >> 16) & 0x1f) as u8)
    }

    /// Returns the 16-bit immediate or displacement (bits 15..0).
    pub fn imm(&self) -> (r: u16)
        ensures
            r == spec_imm(self.0),
    {
        (self.0 & 0xffff) as u16
    }

    /// Returns the 26-bit jump target (bits 25..0).
    pub fn target(&self) -> (r: u32)
        ensures
            r == spec_target(self.0),
    {
        self.0 & 0x3ffffff
    }

    /// Returns the 5-bit coprocessor destination register (bits 15..11).
    pub fn cop_rd(&self) -> (r: CopRegisterIndex)
        ensures
            r == CopRegisterIndex(spec_cop_rd(self.0)),
            r.0 < 32,
    {
        proof {
            lemma_decode_fields_in_range(self.0);
        }
        CopRegisterIndex(((self.0 >> 11) & 0x1f) as u8)
    }

    /// Returns the 5-bit destination register (bits 15..11).
    pub fn rd(&self) -> (r: RegisterIndex)
        ensures
            r == RegisterIndex(spec_rd(self.0)),
            r.0 < 32,
    {
        proof {
            lemma_decode_fields_in_range(self.0);
        }
        RegisterIndex(((self.0 >> 11) & 0x1f) as u8)
    }

    /// Returns the 5-bit shift amount (bits 10..6).
    pub fn shamt(&self) -> (r: u8)
        ensures
            r == spec_shamt(self.0),
            r < 32,
    {
        proof {
            lemma_decode_fields_in_range(self.0);
        }
        ((self.0 >> 6) & 0x1f) as u8
    }

    /// Returns the 6-bit function field (bits 5..0).
    pub fn funct(&self) -> (r: u8)
        ensures
            r == spec_funct(self.0),
    {
        (self.0 & 0x3f) as u8
    }
}

} // verus!
