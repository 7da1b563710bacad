use gb_core::cpu::{Cpu, PairName, RegisterPair};
use gb_core::game::Game;

#[test]
fn register_pair_combines_halves() {
    let pair = RegisterPair { low: 0x34, hi: 0x12 };
    assert_eq!(pair.get_value(), 0x1234);
}

#[test]
fn set_pair_splits_value_into_halves() {
    let mut cpu = Cpu::new(Game::new());
    cpu.registers.set_pair(&PairName::BC, 0xABCD);
    assert_eq!(cpu.registers.bc.hi, 0xAB);
    assert_eq!(cpu.registers.bc.low, 0xCD);
    assert_eq!(cpu.registers.get_pair(&PairName::BC).get_value(), 0xABCD);
}

#[test]
fn flags_register_low_bits_read_zero() {
    let mut cpu = Cpu::new(Game::new());
    // The F half of AF keeps its low nibble pinned to zero.
    cpu.registers.set_pair(&PairName::AF, 0xFFFF);
    assert_eq!(cpu.registers.af.hi, 0xFF);
    assert_eq!(cpu.registers.af.low, 0xF0);
}

#[test]
fn power_on_processor_state() {
    let cpu = Cpu::new(Game::new());
    assert_eq!(cpu.program_counter, 0x100);
    assert_eq!(cpu.stack_pointer, 0xFFFE);
    assert!(cpu.interrupt_master);
    assert!(!cpu.halted);
    assert_eq!(cpu.scanline_counter, 456);
    assert_eq!(cpu.screen_data.len(), 160 * 144 * 3);
    assert_eq!(cpu.registers.get_pair(&PairName::AF).get_value(), 0);
    assert_eq!(cpu.registers.get_pair(&PairName::HL).get_value(), 0);
}

#[test]
fn nop_costs_four_cycles_and_advances() {
    // A zeroed cartridge leaves a no-op at the instruction pointer.
    let mut cpu = Cpu::new(Game::new());
    let cycles = cpu.execute_op();
    assert_eq!(cycles, 4);
    assert_eq!(cpu.program_counter, 0x101);
}

#[test]
fn halted_processor_burns_four_cycles() {
    let mut cpu = Cpu::new(Game::new());
    cpu.halted = true;
    let cycles = cpu.execute_op();
    assert_eq!(cycles, 4);
    assert_eq!(cpu.program_counter, 0x100);
}

#[test]
fn load16_reads_operands_low_byte_first() {
    let mut game = Game::new();
    let mut rom = vec![0u8; 0x20000];
    rom[0x100] = 0x01;
    rom[0x101] = 0x34;
    rom[0x102] = 0x12;
    game.load_game_memory(&rom);
    let mut cpu = Cpu::new(game);

    let cycles = cpu.execute_op();

    assert_eq!(cycles, 12);
    assert_eq!(cpu.registers.get_pair(&PairName::BC).get_value(), 0x1234);
    // The handler consumes its two operand bytes; the baseline fetch
    // advance adds one more.
    assert_eq!(cpu.program_counter, 0x103);
}

#[test]
fn unknown_opcode_is_a_four_cycle_no_op() {
    let mut game = Game::new();
    let mut rom = vec![0u8; 0x20000];
    rom[0x100] = 0xD3;
    game.load_game_memory(&rom);
    let mut cpu = Cpu::new(game);

    let bc_before = cpu.registers.get_pair(&PairName::BC).get_value();
    let cycles = cpu.execute_op();

    assert_eq!(cycles, 4);
    assert_eq!(cpu.program_counter, 0x101);
    assert_eq!(cpu.registers.get_pair(&PairName::BC).get_value(), bc_before);
}
