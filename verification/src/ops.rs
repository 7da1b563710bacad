use vstd::prelude::*;

use crate::cpu::{self, Cpu, CpuModel, PairName};
use crate::mmu;
use crate::utils;

verus! {

/// Whether an opcode is one of the 16-bit immediate loads the dispatch
/// table recognises.
pub open spec fn is_load16(op: u8) -> bool {
    op == 0x01 || op == 0x11 || op == 0x21 || op == 0x31
}

/// The cycle cost of an opcode: recognised 16-bit loads cost 12 cycles;
/// everything else, the no-op included, defaults to 4.
pub open spec fn op_cycles(op: u8) -> usize {
    if is_load16(op) {
        12
    } else {
        4
    }
}

/// A 16-bit immediate load: the two bytes after the opcode land in the
/// pair (low byte first), and the handler consumes those two operand
/// bytes.
pub open spec fn load16_spec(c: CpuModel, pair: PairName) -> CpuModel {
    let lo = cpu::read_at(c.mmu, vstd::wrapping::u16_specs::wrapping_add(c.program_counter, 1));
    let hi = cpu::read_at(c.mmu, vstd::wrapping::u16_specs::wrapping_add(c.program_counter, 2));
    CpuModel {
        registers: cpu::set_pair_spec(c.registers, pair, (hi * 256 + lo) as u16),
        program_counter: vstd::wrapping::u16_specs::wrapping_add(c.program_counter, 2),
        ..c
    }
}

/// What one dispatched opcode does to the processor state; unrecognised
/// opcodes resolve to a four-cycle no-op so the frame loop stays live.
pub open spec fn op_spec(c: CpuModel, op: u8) -> CpuModel {
    if is_load16(op) {
        load16_spec(c, PairName::BC)
    } else {
        c
    }
}

/// Dispatches one fetched opcode to its handler and reports its cycle
/// cost.
pub fn do_execute_op(cpu: &mut Cpu, operation: u8) -> (cycles: usize)
    requires
        old(cpu).wf(),
    ensures
        final(cpu).wf(),
        final(cpu)@ == op_spec(old(cpu)@, operation),
        cycles == op_cycles(operation),
{
    if operation == 0x01 || operation == 0x11 || operation == 0x21 || operation == 0x31 {
        cpu_16_bit_load(cpu, &PairName::BC)
    } else {
        // The no-op, and any opcode without a handler, costs four cycles
        // and changes nothing.
        4
    }
}

/// Loads the two bytes following the opcode into a register pair, low byte
/// first, and steps the instruction pointer past them.
pub fn cpu_16_bit_load(cpu: &mut Cpu, pair: &PairName) -> (cycles: usize)
    requires
        old(cpu).wf(),
    ensures
        final(cpu).wf(),
        final(cpu)@ == load16_spec(old(cpu)@, *pair),
        cycles == 12,
{
    let first_address = cpu.program_counter.wrapping_add(1);
    let second_address = cpu.program_counter.wrapping_add(2);

    let lo = cpu.mmu.read_memory(&(first_address as usize)) as u16;
    let hi = cpu.mmu.read_memory(&(second_address as usize)) as u16;
    let data: u16 = hi * 256 + lo;

    cpu.registers.set_pair(pair, data);
    cpu.program_counter = cpu.program_counter.wrapping_add(2);

    12
}

} // verus!
