//! An instruction-level PlayStation core: a MIPS R3000A interpreter with
//! branch- and load-delay slots, a memory-mapped device bus, a seven-channel
//! DMA controller, and the GPU command front-end, each with a verified
//! contract over a mathematical view of its state.

pub mod abort;
pub mod bus;
pub mod channel;
pub mod cpu;
pub mod cpu_cop;
pub mod cpu_mem;
pub mod cpu_ops;
pub mod cpu_special;
pub mod dma;
pub mod exception;
pub mod gpu;
pub mod instruction;
pub mod laws;
pub mod mem;
pub mod psx;
pub mod range;
pub mod renderer;
pub mod words;
