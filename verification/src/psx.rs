//! The console: it owns the CPU, which owns the bus and everything behind
//! it, and steps the machine a frame's worth of instructions at a time.

use vstd::prelude::*;

use crate::abort::{matches_abort, Abort};
use crate::bus::Bus;
use crate::cpu::{cpu_wf, step_spec, Cpu, CpuView};
use crate::dma::Dma;
use crate::gpu::Gpu;
use crate::mem::{Bios, Ram, BIOS_SIZE};

verus! {

/// The CPU clock rate in cycles per second.
pub const CPU_CYCLES_PER_SECOND: u32 = 33868800;

/// The display refresh rate the frame budget is paced against.
pub const FRAMES_PER_SECOND: u32 = 60;

/// The machine after a run of whole steps: each step in turn, stopping
/// where one becomes unresolvable.
pub open spec fn run_steps_spec(c: CpuView, steps: int) -> (CpuView, Option<Abort>)
    decreases steps,
{
    if steps <= 0 {
        (c, None)
    } else {
        let (c2, abort) = step_spec(c);
        match abort {
            Some(a) => (c2, Some(a)),
            None => run_steps_spec(c2, steps - 1),
        }
    }
}

/// The console.
#[derive(Debug)]
pub struct Psx {
    /// The CPU, owning the bus and every component behind it.
    pub cpu: Cpu,
}

impl Psx {
    /// Creates a console around a loaded firmware image: fresh RAM, DMA and
    /// GPU state, and the program counter at the boot address.
    pub fn new(bios_data: Vec<u8>) -> (r: Psx)
        requires
            bios_data@.len() == BIOS_SIZE,
        ensures
            cpu_wf(r.cpu@),
            r.cpu@.pc == crate::cpu::BOOT_PC,
            r.cpu@.bus.bios == bios_data@,
            r.cpu@.bus.ram == Seq::<u8>::new(crate::mem::RAM_SIZE as nat, |i: int| 0u8),
            r.cpu@.bus.dma == crate::dma::dma_init(),
            r.cpu@.bus.gpu == crate::gpu::gpu_init(),
            r.cpu@.registers == Seq::<u32>::new(32, |i: int| 0u32),
            r.cpu@.out_registers == Seq::<u32>::new(32, |i: int| 0u32),
            r.cpu@.cop0 == Seq::<u32>::new(64, |i: int| 0u32),
            r.cpu@.hi == 0,
            r.cpu@.lo == 0,
            r.cpu@.load_delay is None,
            r.cpu@.branch_delay is None,
    {
        let bios = Bios::new(bios_data);
        let ram = Ram::new();
        let dma = Dma::new();
        let gpu = Gpu::new();
        let bus = Bus::new(bios, ram, dma, gpu);
        let cpu = Cpu::new(bus);
        Psx { cpu }
    }

    /// The number of CPU steps a frame is budgeted, pacing one instruction
    /// per cycle at half the frame's cycle count.
    pub fn steps_per_frame() -> (r: u32)
        ensures
            r == CPU_CYCLES_PER_SECOND / FRAMES_PER_SECOND / 2,
    {
        CPU_CYCLES_PER_SECOND / FRAMES_PER_SECOND / 2
    }

    /// Steps the CPU the given number of times, stopping where a step
    /// becomes unresolvable.
    #[verifier::loop_isolation(false)]
    pub fn run_steps(&mut self, steps: u32) -> (r: Result<(), Abort>)
        requires
            cpu_wf(old(self).cpu@),
        ensures
            cpu_wf(final(self).cpu@),
            final(self).cpu@ == run_steps_spec(old(self).cpu@, steps as int).0,
            matches_abort(r, run_steps_spec(old(self).cpu@, steps as int).1),
    {
        let mut remaining: u32 = steps;
        while remaining != 0
            invariant
                cpu_wf(self.cpu@),
                run_steps_spec(old(self).cpu@, steps as int) == run_steps_spec(
                    self.cpu@,
                    remaining as int,
                ),
            decreases remaining,
        {
            let ghost pre = self.cpu@;
            let res = self.cpu.step();
            if let Err(a) = res {
                proof {
                    assert(run_steps_spec(pre, remaining as int) == (
                        self.cpu@,
                        Some::<Abort>(a),
                    ));
                }
                return Err(a);
            }
            remaining = remaining - 1;
        }
        Ok(())
    }

    /// Emulates one frame: the frame's budget of CPU steps. Transfers and
    /// GPU commands run inline within their steps; the draw commands the
    /// frame produced await the renderer sink on the GPU.
    pub fn emulate_frame(&mut self) -> (r: Result<(), Abort>)
        requires
            cpu_wf(old(self).cpu@),
        ensures
            cpu_wf(final(self).cpu@),
            final(self).cpu@ == run_steps_spec(
                old(self).cpu@,
                (CPU_CYCLES_PER_SECOND / FRAMES_PER_SECOND / 2) as int,
            ).0,
            matches_abort(
                r,
                run_steps_spec(
                    old(self).cpu@,
                    (CPU_CYCLES_PER_SECOND / FRAMES_PER_SECOND / 2) as int,
                ).1,
            ),
    {
        let steps = Psx::steps_per_frame();
        self.run_steps(steps)
    }
}

} // verus!
