use vstd::prelude::*;

use crate::game::Game;
use crate::mmu::{self, Mmu, MmuModel};
use crate::ops;
use crate::utils;

verus! {

/// The four 16-bit register pairs of the processor.
#[derive(Clone, Copy, PartialEq, Eq, Structural, Debug)]
pub enum PairName {
    AF,
    BC,
    DE,
    HL,
}

/// One register pair, addressable as two 8-bit halves; the combined 16-bit
/// value is always `hi * 256 + low`, so the pair and half views can never
/// disagree.
#[derive(Clone, Copy, PartialEq, Eq, Structural, Debug)]
pub struct RegisterPair {
    pub low: u8,
    pub hi: u8,
}

impl RegisterPair {
    /// The combined 16-bit value of the pair.
    pub open spec fn value_spec(self) -> int {
        self.hi * 256 + self.low
    }

    pub fn get_value(&self) -> (v: u16)
        ensures
            v == self.value_spec(),
    {
        (self.hi as u16) * 256 + (self.low as u16)
    }
}

/// The register file: four pairs, each a single source of truth for both
/// its 16-bit and its 8-bit views.
#[derive(Clone, Copy, PartialEq, Eq, Structural, Debug)]
pub struct Registers {
    pub af: RegisterPair,
    pub bc: RegisterPair,
    pub de: RegisterPair,
    pub hl: RegisterPair,
}

/// Writing a 16-bit value into a pair: the flags half of AF keeps its low
/// four bits pinned to zero, as the hardware flag register does.
pub open spec fn set_pair_spec(regs: Registers, pair: PairName, value: u16) -> Registers {
    let hi = (value / 256) as u8;
    let low = (value % 256) as u8;
    match pair {
        PairName::AF => Registers { af: RegisterPair { low: low & 0xF0, hi }, ..regs },
        PairName::BC => Registers { bc: RegisterPair { low, hi }, ..regs },
        PairName::DE => Registers { de: RegisterPair { low, hi }, ..regs },
        PairName::HL => Registers { hl: RegisterPair { low, hi }, ..regs },
    }
}

impl Registers {
    pub open spec fn spec_get(self, pair: PairName) -> RegisterPair {
        match pair {
            PairName::AF => self.af,
            PairName::BC => self.bc,
            PairName::DE => self.de,
            PairName::HL => self.hl,
        }
    }

    /// The four unused low bits of the flags register always read as zero.
    pub open spec fn flags_wf(self) -> bool {
        self.af.low & 0x0F == 0
    }

    pub fn get_pair(&self, pair: &PairName) -> (r: RegisterPair)
        ensures
            r == self.spec_get(*pair),
    {
        match *pair {
            PairName::AF => self.af,
            PairName::BC => self.bc,
            PairName::DE => self.de,
            PairName::HL => self.hl,
        }
    }

    pub fn set_pair(&mut self, pair: &PairName, value: u16)
        ensures
            *final(self) == set_pair_spec(*old(self), *pair, value),
            old(self).flags_wf() ==> final(self).flags_wf(),
    {
        let hi = (value / 256) as u8;
        let low = (value % 256) as u8;
        match *pair {
            PairName::AF => {
                // Only the four defined flag bits of F may ever be set.
                self.af = RegisterPair { low: low & 0xF0, hi };
                proof {
                    let l = low;
                    assert((l & 0xF0) & 0x0F == 0) by (bit_vector);
                }
            },
            PairName::BC => {
                self.bc = RegisterPair { low, hi };
            },
            PairName::DE => {
                self.de = RegisterPair { low, hi };
            },
            PairName::HL => {
                self.hl = RegisterPair { low, hi };
            },
        }
    }
}

/// The mathematical state of the processor together with everything it
/// drives: the memory subsystem, the register file, the two pointers, the
/// timer and scanline bookkeeping, and the pixel buffer.
#[verifier::ext_equal]
pub ghost struct CpuModel {
    pub mmu: MmuModel,
    pub registers: Registers,
    pub program_counter: u16,
    pub stack_pointer: u16,
    pub divider_counter: u16,
    pub interrupt_master: bool,
    pub scanline_counter: u16,
    pub screen: Seq<u8>,
    pub halted: bool,
}

impl CpuModel {
    pub open spec fn wf(self) -> bool {
        &&& self.mmu.wf()
        &&& self.screen.len() == utils::SCREEN_DATA_SIZE
        &&& self.divider_counter < 256
        &&& self.scanline_counter <= 456
        &&& self.registers.flags_wf()
    }
}

/// The processor: fetches one instruction per step, dispatches it, and
/// owns the stack pointer, the register pairs, and the pixel buffer that
/// the graphics pipeline fills.
pub struct Cpu {
    pub mmu: Mmu,
    pub registers: Registers,
    pub program_counter: u16,
    pub stack_pointer: u16,
    // Cycles accumulated toward the next divider register increment.
    pub divider_counter: u16,
    pub interrupt_master: bool,
    // Cycles left in the current scanline's 456-cycle budget.
    pub scanline_counter: u16,
    // Flat RGB pixel buffer, row-major, three bytes per pixel.
    pub screen_data: Vec<u8>,
    // While set, each step burns four cycles and executes nothing.
    // Servicing an interrupt does not by itself re-arm execution: whoever
    // parks the processor here is responsible for waking it.
    pub halted: bool,
}

impl View for Cpu {
    type V = CpuModel;

    open spec fn view(&self) -> CpuModel {
        CpuModel {
            mmu: self.mmu@,
            registers: self.registers,
            program_counter: self.program_counter,
            stack_pointer: self.stack_pointer,
            divider_counter: self.divider_counter,
            interrupt_master: self.interrupt_master,
            scanline_counter: self.scanline_counter,
            screen: self.screen_data@,
            halted: self.halted,
        }
    }
}

/// The bit a given interrupt kind occupies in the request and enable
/// registers.
pub open spec fn interrupt_mask(bit: u8) -> u8 {
    if bit == 0 {
        1
    } else if bit == 1 {
        2
    } else if bit == 2 {
        4
    } else if bit == 4 {
        16
    } else {
        0
    }
}

/// The fixed address the processor jumps to when servicing an interrupt
/// kind.
pub open spec fn interrupt_vector(bit: u8) -> u16 {
    if bit == 0 {
        0x40
    } else if bit == 1 {
        0x48
    } else if bit == 2 {
        0x50
    } else if bit == 4 {
        0x60
    } else {
        0
    }
}

/// The highest-priority interrupt kind that is both requested and enabled;
/// priority runs low bit to high bit.
pub open spec fn first_pending_interrupt(request: u8, enabled: u8) -> Option<u8> {
    if 1 & request > 0 && 1 & enabled > 0 {
        Some(0u8)
    } else if 2 & request > 0 && 2 & enabled > 0 {
        Some(1u8)
    } else if 4 & request > 0 && 4 & enabled > 0 {
        Some(2u8)
    } else if 16 & request > 0 && 16 & enabled > 0 {
        Some(4u8)
    } else {
        None
    }
}

/// Pushing a word: the stack pointer moves down before each byte, the high
/// byte lands at sp-1 and the low byte at sp-2, both through the normal
/// write dispatch.
pub open spec fn push_word_spec(c: CpuModel, word: u16) -> CpuModel {
    let sp1 = vstd::wrapping::u16_specs::wrapping_sub(c.stack_pointer, 1);
    let sp2 = vstd::wrapping::u16_specs::wrapping_sub(c.stack_pointer, 2);
    let m1 = mmu::write_spec(c.mmu, sp1 as usize, (word / 256) as u8);
    let m2 = mmu::write_spec(m1, sp2 as usize, (word % 256) as u8);
    CpuModel { mmu: m2, stack_pointer: sp2, ..c }
}

/// The word a pop reads: low byte at sp, high byte at sp+1.
pub open spec fn pop_word_value(c: CpuModel) -> int {
    read_at(c.mmu, vstd::wrapping::u16_specs::wrapping_add(c.stack_pointer, 1)) * 256 + read_at(
        c.mmu,
        c.stack_pointer,
    )
}

/// A read through the normal dispatch at a 16-bit address.
pub open spec fn read_at(m: MmuModel, address: u16) -> u8 {
    mmu::read_spec(m, address as usize)
}

/// The divider accumulator after some cycles: it counts modulo 256.
pub open spec fn divider_step_acc(acc: int, cycles: int) -> int {
    (acc + cycles) % 256
}

/// The visible divider register after some cycles: it gains one tick per
/// full 256 accumulated cycles and wraps at 255.
pub open spec fn divider_step_reg(reg: int, acc: int, cycles: int) -> int {
    (reg + (acc + cycles) / 256) % 256
}

/// Servicing one interrupt kind: its request bit is cleared, the master
/// enable drops, the instruction pointer is pushed onto the stack, and
/// control vectors to the kind's fixed address.
pub open spec fn service_interrupt_spec(c: CpuModel, bit: u8) -> CpuModel {
    let request = c.mmu.mem[utils::INTERRUPT_REQUEST_ADDR as int];
    let m1 = MmuModel {
        mem: c.mmu.mem.update(utils::INTERRUPT_REQUEST_ADDR as int, request ^ interrupt_mask(bit)),
        ..c.mmu
    };
    let c1 = CpuModel { mmu: m1, interrupt_master: false, ..c };
    let c2 = push_word_spec(c1, c.program_counter);
    CpuModel { program_counter: interrupt_vector(bit), ..c2 }
}

/// One interrupt poll: a no-op unless the master enable is set; otherwise
/// at most the single highest-priority pending-and-enabled kind is
/// serviced.
pub open spec fn do_interrupts_spec(c: CpuModel) -> CpuModel {
    if !c.interrupt_master {
        c
    } else {
        let request = c.mmu.mem[utils::INTERRUPT_REQUEST_ADDR as int];
        let enabled = c.mmu.mem[utils::INTERRUPT_ENABLED_ADDR as int];
        if request > 0 {
            match first_pending_interrupt(request, enabled) {
                Some(bit) => service_interrupt_spec(c, bit),
                None => c,
            }
        } else {
            c
        }
    }
}

/// One timer advance: the divider always accumulates; the main counter
/// runs only while bit 2 of the controller is set, and on reaching zero
/// reloads its count from the frequency selector, then either increments
/// the timer or, on overflow past 255, reloads the timer from the
/// modulator and raises the timer interrupt.
pub open spec fn update_timers_spec(c: CpuModel, cycles: usize) -> CpuModel {
    let mem = c.mmu.mem;
    let acc = divider_step_acc(c.divider_counter as int, cycles as int) as u16;
    let reg = divider_step_reg(
        mem[utils::DIVIDER_REGISTER_ADDR as int] as int,
        c.divider_counter as int,
        cycles as int,
    ) as u8;
    let c1 = CpuModel {
        divider_counter: acc,
        mmu: MmuModel { mem: mem.update(utils::DIVIDER_REGISTER_ADDR as int, reg), ..c.mmu },
        ..c
    };
    if mem[utils::TIMER_CONTROLLER_ADDR as int] & 4 > 0 {
        let remaining = if c.mmu.timer_counter >= cycles {
            (c.mmu.timer_counter - cycles) as usize
        } else {
            0
        };
        if remaining == 0 {
            let period = mmu::frequency_period(mem[utils::TIMER_CONTROLLER_ADDR as int] & 3);
            let c2 = CpuModel { mmu: MmuModel { timer_counter: period, ..c1.mmu }, ..c1 };
            let mem2 = c2.mmu.mem;
            if mem2[utils::TIMER_ADDR as int] == 255 {
                let mem3 = mem2.update(utils::TIMER_ADDR as int, mem2[utils::TIMER_MODULATOR_ADDR as int]);
                let mem4 = mem3.update(
                    utils::INTERRUPT_REQUEST_ADDR as int,
                    mem3[utils::INTERRUPT_REQUEST_ADDR as int] | 4,
                );
                CpuModel { mmu: MmuModel { mem: mem4, ..c2.mmu }, ..c2 }
            } else {
                let mem3 = mem2.update(
                    utils::TIMER_ADDR as int,
                    (mem2[utils::TIMER_ADDR as int] + 1) as u8,
                );
                CpuModel { mmu: MmuModel { mem: mem3, ..c2.mmu }, ..c2 }
            }
        } else {
            CpuModel { mmu: MmuModel { timer_counter: remaining, ..c1.mmu }, ..c1 }
        }
    } else {
        c1
    }
}

/// One processor step: when halted only cycles pass; otherwise the byte at
/// the instruction pointer is fetched and dispatched, and the pointer then
/// advances by the one fetched byte.
pub open spec fn step_spec(c: CpuModel) -> CpuModel {
    if c.halted {
        c
    } else {
        let op = read_at(c.mmu, c.program_counter);
        let c1 = ops::op_spec(c, op);
        CpuModel {
            program_counter: vstd::wrapping::u16_specs::wrapping_add(c1.program_counter, 1),
            ..c1
        }
    }
}

pub open spec fn step_cycles(c: CpuModel) -> usize {
    if c.halted {
        4
    } else {
        ops::op_cycles(read_at(c.mmu, c.program_counter))
    }
}

impl Cpu {
    pub open spec fn wf(&self) -> bool {
        self@.wf()
    }

    /// A processor at power-on over the given cartridge: documented initial
    /// register values, instruction pointer at 0x100, stack pointer at
    /// 0xFFFE, and a cleared pixel buffer.
    pub fn new(game: Game) -> (cpu: Cpu)
        requires
            game.wf(),
        ensures
            cpu.wf(),
            cpu@.mmu.mem == mmu::init_mem_spec(game@),
            cpu@.mmu.ram == Seq::new(utils::RAM_BANKS_SIZE as nat, |i: int| 0u8),
            cpu@.mmu.cart == game@,
            cpu@.mmu.joypad == 7,
            cpu@.mmu.banking_type == mmu::RomBankingType::NoBanking,
            cpu@.mmu.rom_banking == true,
            cpu@.mmu.current_rom_bank == 1,
            cpu@.mmu.current_ram_bank == 0,
            cpu@.mmu.enable_ram == false,
            cpu@.mmu.timer_counter == 1024,
            cpu@.registers == (Registers {
                af: RegisterPair { low: 0, hi: 0 },
                bc: RegisterPair { low: 0, hi: 0 },
                de: RegisterPair { low: 0, hi: 0 },
                hl: RegisterPair { low: 0, hi: 0 },
            }),
            cpu@.program_counter == 0x100,
            cpu@.stack_pointer == 0xFFFE,
            cpu@.divider_counter == 0,
            cpu@.interrupt_master == true,
            cpu@.scanline_counter == 456,
            cpu@.screen == Seq::new(utils::SCREEN_DATA_SIZE as nat, |i: int| 0u8),
            cpu@.halted == false,
    {
        let zero_pair = RegisterPair { low: 0, hi: 0 };
        let registers = Registers { af: zero_pair, bc: zero_pair, de: zero_pair, hl: zero_pair };

        let screen_data: Vec<u8> = vec![0u8; utils::SCREEN_DATA_SIZE];
        proof {
            assert(screen_data@ =~= Seq::new(utils::SCREEN_DATA_SIZE as nat, |i: int| 0u8));
            assert(0u8 & 0x0F == 0) by (bit_vector);
        }

        Cpu {
            mmu: Mmu::new(game),
            registers,
            program_counter: 0x100,
            stack_pointer: 0xFFFE,
            divider_counter: 0,
            interrupt_master: true,
            scanline_counter: 456,
            screen_data,
            halted: false,
        }
    }

    /// One instruction step: fetch, dispatch, advance, or burn four cycles
    /// while halted.
    pub fn execute_op(&mut self) -> (cycles: usize)
        requires
            old(self).wf(),
        ensures
            final(self).wf(),
            final(self)@ == step_spec(old(self)@),
            cycles == step_cycles(old(self)@),
            cycles == 4 || cycles == 12,
    {
        if !self.halted {
            let next_op = self.mmu.read_memory(&(self.program_counter as usize));
            let cycles = ops::do_execute_op(self, next_op);
            self.program_counter = self.program_counter.wrapping_add(1);
            cycles
        } else {
            4
        }
    }

    /// Advances the divider and, while the timer is enabled, the timer
    /// counter, raising the timer interrupt on overflow.
    pub fn update_timers(&mut self, cycles: &usize)
        requires
            old(self).wf(),
            *cycles <= 0xFFFF,
        ensures
            final(self).wf(),
            final(self)@ == update_timers_spec(old(self)@, *cycles),
    {
        // The divider counts whether or not the timer is enabled.
        self.do_divider_register(&(*cycles as u16));

        if self.is_clock_enabled() {
            self.mmu.decrease_timer_counter(cycles);

            if *self.mmu.get_timer_counter() == 0 {
                // Reset the count for the configured frequency before the
                // timer itself moves.
                self.mmu.set_clock_frequency();

                if self.mmu.read_memory(&utils::TIMER_ADDR) == 255 {
                    // Overflow: reload from the modulator and raise the
                    // timer interrupt.
                    let modulator = self.mmu.read_memory(&utils::TIMER_MODULATOR_ADDR);
                    self.mmu.write_memory(&utils::TIMER_ADDR, modulator);
                    self.request_interrupt(2);
                } else {
                    let t = self.mmu.read_memory(&utils::TIMER_ADDR);
                    self.mmu.write_memory(&utils::TIMER_ADDR, t + 1);
                }
            }
        }
        proof {
            assert(self@ =~~= update_timers_spec(old(self)@, *cycles));
        }
    }

    /// Accumulates cycles into the divider: exactly one visible increment
    /// per 256 accumulated cycles, wrapping at 255.
    pub fn do_divider_register(&mut self, cycles: &u16)
        requires
            old(self).wf(),
        ensures
            final(self).wf(),
            final(self)@ == (CpuModel {
                divider_counter: divider_step_acc(
                    old(self)@.divider_counter as int,
                    *cycles as int,
                ) as u16,
                mmu: MmuModel {
                    mem: old(self)@.mmu.mem.update(
                        utils::DIVIDER_REGISTER_ADDR as int,
                        divider_step_reg(
                            old(self)@.mmu.mem[utils::DIVIDER_REGISTER_ADDR as int] as int,
                            old(self)@.divider_counter as int,
                            *cycles as int,
                        ) as u8,
                    ),
                    ..old(self)@.mmu
                },
                ..old(self)@
            }),
    {
        let total: u32 = (self.divider_counter as u32) + (*cycles as u32);
        let ticks: u32 = total / 256;
        let remainder: u32 = total % 256;
        let reg = self.mmu.memory[utils::DIVIDER_REGISTER_ADDR];
        let new_reg = (((reg as u32) + ticks) % 256) as u8;
        self.mmu.memory[utils::DIVIDER_REGISTER_ADDR] = new_reg;
        self.divider_counter = remainder as u16;
    }

    /// Whether bit 2 of the timer controller has the timer running.
    pub fn is_clock_enabled(&self) -> (r: bool)
        requires
            self.wf(),
        ensures
            r == (self@.mmu.mem[utils::TIMER_CONTROLLER_ADDR as int] & 4 > 0),
    {
        let timer_controller_value = self.mmu.read_memory(&utils::TIMER_CONTROLLER_ADDR);
        timer_controller_value & 4 > 0
    }

    /// Sets one interrupt kind's bit in the request register.
    pub fn request_interrupt(&mut self, bit: u8)
        requires
            old(self).wf(),
        ensures
            final(self).wf(),
            final(self)@ == (CpuModel {
                mmu: MmuModel {
                    mem: old(self)@.mmu.mem.update(
                        utils::INTERRUPT_REQUEST_ADDR as int,
                        old(self)@.mmu.mem[utils::INTERRUPT_REQUEST_ADDR as int] | interrupt_mask(
                            bit,
                        ),
                    ),
                    ..old(self)@.mmu
                },
                ..old(self)@
            }),
    {
        let request = self.mmu.read_memory(&utils::INTERRUPT_REQUEST_ADDR);
        let mask: u8 = if bit == 0 {
            1
        } else if bit == 1 {
            2
        } else if bit == 2 {
            4
        } else if bit == 4 {
            16
        } else {
            0
        };
        self.mmu.write_memory(&utils::INTERRUPT_REQUEST_ADDR, request | mask);
    }

    /// Whether one interrupt kind's bit is set in a request or enable
    /// register value.
    pub fn check_interrupt_bit(&self, bit: &u8, interrupt_register_value: &u8) -> (r: bool)
        ensures
            r == (interrupt_mask(*bit) & *interrupt_register_value > 0),
    {
        if *bit == 0 {
            1 & *interrupt_register_value > 0
        } else if *bit == 1 {
            2 & *interrupt_register_value > 0
        } else if *bit == 2 {
            4 & *interrupt_register_value > 0
        } else if *bit == 4 {
            16 & *interrupt_register_value > 0
        } else {
            proof {
                let v = *interrupt_register_value;
                assert(0 & v == 0) by (bit_vector);
            }
            false
        }
    }

    /// Polls for interrupts once; at most one kind is serviced, in fixed
    /// priority order.
    pub fn do_interrupts(&mut self)
        requires
            old(self).wf(),
        ensures
            final(self).wf(),
            final(self)@ == do_interrupts_spec(old(self)@),
    {
        if self.interrupt_master {
            let request = self.mmu.read_memory(&utils::INTERRUPT_REQUEST_ADDR);
            let enabled = self.mmu.read_memory(&utils::INTERRUPT_ENABLED_ADDR);

            if request > 0 {
                // Priority runs from bit 0 upward; only the first
                // requested-and-enabled kind is serviced this step.
                if 1 & request > 0 && 1 & enabled > 0 {
                    self.service_interrupt(&0);
                } else if 2 & request > 0 && 2 & enabled > 0 {
                    self.service_interrupt(&1);
                } else if 4 & request > 0 && 4 & enabled > 0 {
                    self.service_interrupt(&2);
                } else if 16 & request > 0 && 16 & enabled > 0 {
                    self.service_interrupt(&4);
                }
            }
        }
    }

    /// Pushes a word onto the stack: the pointer moves down before each
    /// byte, high byte first.
    pub fn push_word_to_stack(&mut self, word: &u16)
        requires
            old(self).wf(),
        ensures
            final(self).wf(),
            final(self)@ == push_word_spec(old(self)@, *word),
    {
        let hi = (*word / 256) as u8;
        let lo = (*word % 256) as u8;

        self.stack_pointer = self.stack_pointer.wrapping_sub(1);
        let a1 = self.stack_pointer as usize;
        self.mmu.write_memory(&a1, hi);
        self.stack_pointer = self.stack_pointer.wrapping_sub(1);
        let a2 = self.stack_pointer as usize;
        self.mmu.write_memory(&a2, lo);
    }

    /// Pops a word off the stack: low byte at the pointer, high byte one
    /// above, pointer up by two after.
    pub fn pop_word_from_stack(&mut self) -> (word: u16)
        requires
            old(self).wf(),
        ensures
            final(self).wf(),
            word == pop_word_value(old(self)@),
            final(self)@ == (CpuModel {
                stack_pointer: vstd::wrapping::u16_specs::wrapping_add(
                    old(self)@.stack_pointer,
                    2,
                ),
                ..old(self)@
            }),
    {
        let lo = self.mmu.read_memory(&(self.stack_pointer as usize)) as u16;
        let hi_addr = self.stack_pointer.wrapping_add(1) as usize;
        let hi = self.mmu.read_memory(&hi_addr) as u16;
        self.stack_pointer = self.stack_pointer.wrapping_add(2);
        hi * 256 + lo
    }

    /// Services one interrupt kind that is actually pending: clears its
    /// request bit, drops the master enable, saves the instruction pointer
    /// on the stack, and vectors to the kind's address.
    pub fn service_interrupt(&mut self, bit: &u8)
        requires
            old(self).wf(),
            *bit == 0 || *bit == 1 || *bit == 2 || *bit == 4,
            interrupt_mask(*bit) & old(self)@.mmu.mem[utils::INTERRUPT_REQUEST_ADDR as int] > 0,
        ensures
            final(self).wf(),
            final(self)@ == service_interrupt_spec(old(self)@, *bit),
    {
        self.interrupt_master = false;

        let request = self.mmu.read_memory(&utils::INTERRUPT_REQUEST_ADDR);
        let mask: u8 = if *bit == 0 {
            1
        } else if *bit == 1 {
            2
        } else if *bit == 2 {
            4
        } else {
            16
        };
        // The caller established the bit is set, so the exclusive-or
        // clears exactly it.
        self.mmu.write_memory(&utils::INTERRUPT_REQUEST_ADDR, request ^ mask);

        let current_pc = self.program_counter;
        self.push_word_to_stack(&current_pc);

        self.program_counter = if *bit == 0 {
            0x40
        } else if *bit == 1 {
            0x48
        } else if *bit == 2 {
            0x50
        } else {
            0x60
        };
    }
}

/// The divider advances the same whether cycles arrive in one chunk or
/// two: accumulating c1 and then c2 leaves the accumulator and the
/// visible register exactly as accumulating c1 + c2 at once does.
pub proof fn lemma_divider_chunking(acc: int, reg: int, c1: int, c2: int)
    requires
        0 <= acc,
        0 <= reg,
        0 <= c1,
        0 <= c2,
    ensures
        divider_step_acc(divider_step_acc(acc, c1), c2) == divider_step_acc(acc, c1 + c2),
        divider_step_reg(divider_step_reg(reg, acc, c1), divider_step_acc(acc, c1), c2)
            == divider_step_reg(reg, acc, c1 + c2),
{
    let t = acc + c1;
    let q = t / 256;
    let r = t % 256;
    vstd::arithmetic::div_mod::lemma_fundamental_div_mod(t, 256);
    // (r + c2) % 256 == (t + c2) % 256
    vstd::arithmetic::div_mod::lemma_add_mod_noop_right(c2, t, 256);
    // (t + c2) / 256 == q + (r + c2) / 256
    vstd::arithmetic::div_mod::lemma_hoist_over_denominator(r + c2, q, 256);
    assert(t + c2 == (r + c2) + q * 256);
    // ((reg + q) % 256 + k) % 256 == (reg + q + k) % 256
    let k = (r + c2) / 256;
    vstd::arithmetic::div_mod::lemma_add_mod_noop_right(k, reg + q, 256);
}

/// The divider's advance does not depend on whether the timer is enabled:
/// one timer update always moves the accumulator and the visible divider
/// register by the accumulated cycles alone.
pub proof fn lemma_divider_independent_of_enable(c: CpuModel, cycles: usize)
    requires
        c.wf(),
    ensures
        update_timers_spec(c, cycles).divider_counter == divider_step_acc(
            c.divider_counter as int,
            cycles as int,
        ) as u16,
        update_timers_spec(c, cycles).mmu.mem[utils::DIVIDER_REGISTER_ADDR as int]
            == divider_step_reg(
            c.mmu.mem[utils::DIVIDER_REGISTER_ADDR as int] as int,
            c.divider_counter as int,
            cycles as int,
        ) as u8,
{
}

/// A timer overflow reloads the timer from the modulator register, not
/// from zero, and raises exactly the timer interrupt request bit: the
/// other request bits keep their values.
pub proof fn lemma_timer_overflow(c: CpuModel, cycles: usize)
    requires
        c.wf(),
        c.mmu.mem[utils::TIMER_CONTROLLER_ADDR as int] & 4 > 0,
        c.mmu.timer_counter <= cycles,
        c.mmu.mem[utils::TIMER_ADDR as int] == 255,
    ensures
        update_timers_spec(c, cycles).mmu.mem[utils::TIMER_ADDR as int] == c.mmu.mem[
            utils::TIMER_MODULATOR_ADDR as int],
        update_timers_spec(c, cycles).mmu.mem[utils::INTERRUPT_REQUEST_ADDR as int] & 4 == 4,
        update_timers_spec(c, cycles).mmu.mem[utils::INTERRUPT_REQUEST_ADDR as int] & 1 == c.mmu.mem[
            utils::INTERRUPT_REQUEST_ADDR as int] & 1,
        update_timers_spec(c, cycles).mmu.mem[utils::INTERRUPT_REQUEST_ADDR as int] & 2 == c.mmu.mem[
            utils::INTERRUPT_REQUEST_ADDR as int] & 2,
        update_timers_spec(c, cycles).mmu.mem[utils::INTERRUPT_REQUEST_ADDR as int] & 16
            == c.mmu.mem[utils::INTERRUPT_REQUEST_ADDR as int] & 16,
{
    let r = c.mmu.mem[utils::INTERRUPT_REQUEST_ADDR as int];
    assert((r | 4) & 4 == 4 && (r | 4) & 1 == r & 1 && (r | 4) & 2 == r & 2 && (r | 4) & 16 == r
        & 16) by (bit_vector);
}

/// A pushed word reads back exactly on the following pop, and the stack
/// pointer nets to its starting value, for any stack position whose two
/// bytes land readable where they were written (plainly-stored memory or
/// mirrored work RAM).
pub proof fn lemma_stack_round_trip(c: CpuModel, word: u16)
    requires
        c.wf(),
        2 <= c.stack_pointer,
        mmu::plain_read_addr((c.stack_pointer - 1) as usize),
        mmu::direct_readback_addr((c.stack_pointer - 1) as usize),
        mmu::plain_read_addr((c.stack_pointer - 2) as usize),
        mmu::direct_readback_addr((c.stack_pointer - 2) as usize),
    ensures
        pop_word_value(push_word_spec(c, word)) == word,
        vstd::wrapping::u16_specs::wrapping_add(push_word_spec(c, word).stack_pointer, 2)
            == c.stack_pointer,
{
    vstd::arithmetic::div_mod::lemma_fundamental_div_mod(word as int, 256);
}

/// Interrupt servicing honours priority: with V-Blank and Timer both
/// requested and enabled, one poll services V-Blank alone - the master
/// enable drops, control vectors to 0x40, the V-Blank request bit is
/// cleared and the Timer request bit is left standing.
pub proof fn lemma_interrupt_priority(c: CpuModel)
    requires
        c.wf(),
        c.interrupt_master,
        c.mmu.mem[utils::INTERRUPT_REQUEST_ADDR as int] & 1 > 0,
        c.mmu.mem[utils::INTERRUPT_ENABLED_ADDR as int] & 1 > 0,
        c.mmu.mem[utils::INTERRUPT_REQUEST_ADDR as int] & 4 > 0,
        c.mmu.mem[utils::INTERRUPT_ENABLED_ADDR as int] & 4 > 0,
        vstd::wrapping::u16_specs::wrapping_sub(c.stack_pointer, 1)
            != utils::INTERRUPT_REQUEST_ADDR,
        vstd::wrapping::u16_specs::wrapping_sub(c.stack_pointer, 2)
            != utils::INTERRUPT_REQUEST_ADDR,
    ensures
        do_interrupts_spec(c).program_counter == 0x40,
        do_interrupts_spec(c).interrupt_master == false,
        do_interrupts_spec(c).mmu.mem[utils::INTERRUPT_REQUEST_ADDR as int] & 1 == 0,
        do_interrupts_spec(c).mmu.mem[utils::INTERRUPT_REQUEST_ADDR as int] & 4 == c.mmu.mem[
            utils::INTERRUPT_REQUEST_ADDR as int] & 4,
        do_interrupts_spec(c).mmu.mem[utils::INTERRUPT_REQUEST_ADDR as int] & 2 == c.mmu.mem[
            utils::INTERRUPT_REQUEST_ADDR as int] & 2,
        do_interrupts_spec(c).mmu.mem[utils::INTERRUPT_REQUEST_ADDR as int] & 16 == c.mmu.mem[
            utils::INTERRUPT_REQUEST_ADDR as int] & 16,
{
    let r = c.mmu.mem[utils::INTERRUPT_REQUEST_ADDR as int];
    let e = c.mmu.mem[utils::INTERRUPT_ENABLED_ADDR as int];
    assert(r & 1 > 0 ==> r > 0) by (bit_vector);
    assert(1 & r == r & 1 && 1 & e == e & 1) by (bit_vector);
    assert((r ^ 1) & 1 == 0 && (r ^ 1) & 2 == r & 2 && (r ^ 1) & 4 == r & 4 && (r ^ 1) & 16 == r
        & 16) by (bit_vector)
        requires
            r & 1 > 0,
    ;
    let c1 = CpuModel {
        mmu: MmuModel {
            mem: c.mmu.mem.update(utils::INTERRUPT_REQUEST_ADDR as int, (r ^ interrupt_mask(0))),
            ..c.mmu
        },
        interrupt_master: false,
        ..c
    };
    let sp1 = vstd::wrapping::u16_specs::wrapping_sub(c.stack_pointer, 1);
    let sp2 = vstd::wrapping::u16_specs::wrapping_sub(c.stack_pointer, 2);
    mmu::lemma_write_spec_wf(c1.mmu, sp1 as usize, ((c.program_counter as int) / 256) as u8);
    mmu::lemma_write_preserves_request(c1.mmu, sp1 as usize, ((c.program_counter as int) / 256) as u8);
    mmu::lemma_write_preserves_request(
        mmu::write_spec(c1.mmu, sp1 as usize, ((c.program_counter as int) / 256) as u8),
        sp2 as usize,
        ((c.program_counter as int) % 256) as u8,
    );
}

} // verus!
