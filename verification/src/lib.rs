pub mod cpu;
pub mod game;
pub mod gpu;
pub mod mmu;
pub mod ops;
pub mod utils;

use vstd::prelude::*;

use crate::cpu::{Cpu, CpuModel};

verus! {

/// Cycles one frame consumes: the hardware clock rate divided by the 60 Hz
/// frame rate.
pub const MAX_CYCLES_PER_FRAME: usize = 69905;

/// One full machine step: the processor executes an instruction, its cycle
/// cost feeds the timer and the graphics pipeline, and the interrupt
/// controller is polled once.
pub open spec fn machine_step_spec(c: CpuModel) -> CpuModel {
    let cycles = cpu::step_cycles(c);
    let c1 = cpu::step_spec(c);
    let c2 = cpu::update_timers_spec(c1, cycles);
    let c3 = gpu::update_graphics_spec(c2, cycles);
    cpu::do_interrupts_spec(c3)
}

/// Machine steps repeated until the remaining cycle budget is spent; each
/// step consumes at least four cycles.
pub open spec fn run_frame_spec(c: CpuModel, remaining: int) -> CpuModel
    decreases remaining,
{
    if remaining <= 0 {
        c
    } else {
        let next = remaining - cpu::step_cycles(c);
        run_frame_spec(machine_step_spec(c), if next < 0 { 0 } else { next })
    }
}

/// The engine: one processor over one memory subsystem, driven one video
/// frame at a time.
pub struct Emulator {
    pub cpu: Cpu,
}

impl Emulator {
    /// An engine at power-on over the given cartridge.
    pub fn new(game: game::Game) -> (e: Emulator)
        requires
            game.wf(),
        ensures
            e.cpu.wf(),
            e.cpu@.mmu.mem == mmu::init_mem_spec(game@),
            e.cpu@.mmu.cart == game@,
            e.cpu@.program_counter == 0x100,
            e.cpu@.stack_pointer == 0xFFFE,
            e.cpu@.interrupt_master == true,
            e.cpu@.scanline_counter == 456,
            e.cpu@.halted == false,
    {
        Emulator { cpu: Cpu::new(game) }
    }

    /// Produces one video frame: steps the processor, feeding each step's
    /// cycle cost to the timer, the graphics pipeline and the interrupt
    /// controller, until the fixed per-frame cycle budget is consumed.
    pub fn update(&mut self)
        requires
            old(self).cpu.wf(),
        ensures
            final(self).cpu.wf(),
            final(self).cpu@ == run_frame_spec(old(self).cpu@, MAX_CYCLES_PER_FRAME as int),
    {
        let mut cycles_this_update: usize = 0;

        while cycles_this_update < MAX_CYCLES_PER_FRAME
            invariant
                self.cpu.wf(),
                cycles_this_update <= MAX_CYCLES_PER_FRAME + 12,
                run_frame_spec(old(self).cpu@, MAX_CYCLES_PER_FRAME as int) == run_frame_spec(
                    self.cpu@,
                    MAX_CYCLES_PER_FRAME - cycles_this_update,
                ),
            decreases MAX_CYCLES_PER_FRAME + 12 - cycles_this_update,
        {
            let ghost before = self.cpu@;

            let cycles = self.cpu.execute_op();
            cycles_this_update = cycles_this_update + cycles;

            self.cpu.update_timers(&cycles);
            self.cpu.update_graphics(&cycles);
            self.cpu.do_interrupts();

            proof {
                assert(self.cpu@ == machine_step_spec(before));
                if MAX_CYCLES_PER_FRAME - cycles_this_update < 0 {
                    assert(run_frame_spec(self.cpu@, MAX_CYCLES_PER_FRAME - cycles_this_update)
                        == self.cpu@);
                    assert(run_frame_spec(self.cpu@, 0) == self.cpu@);
                }
            }
        }
    }
}

} // verus!
