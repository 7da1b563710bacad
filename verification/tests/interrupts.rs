use gb_core::cpu::Cpu;
use gb_core::game::Game;

#[test]
fn stack_round_trip_returns_pushed_word() {
    let mut cpu = Cpu::new(Game::new());
    let sp_before = cpu.stack_pointer;

    cpu.push_word_to_stack(&0xABCD);
    assert_eq!(cpu.stack_pointer, sp_before - 2);

    let word = cpu.pop_word_from_stack();
    assert_eq!(word, 0xABCD);
    // The stack pointer nets to its original value.
    assert_eq!(cpu.stack_pointer, sp_before);
}

#[test]
fn stack_push_lays_bytes_big_end_down() {
    let mut cpu = Cpu::new(Game::new());
    // Power-on stack pointer is 0xFFFE: the high byte lands at 0xFFFD,
    // the low byte at 0xFFFC.
    cpu.push_word_to_stack(&0x1234);
    assert_eq!(cpu.mmu.read_memory(&0xFFFD), 0x12);
    assert_eq!(cpu.mmu.read_memory(&0xFFFC), 0x34);
}

#[test]
fn request_interrupt_sets_single_bits() {
    let mut cpu = Cpu::new(Game::new());
    cpu.request_interrupt(0);
    assert_eq!(cpu.mmu.read_memory(&0xFF0F), 0b00001);
    cpu.request_interrupt(2);
    assert_eq!(cpu.mmu.read_memory(&0xFF0F), 0b00101);
    cpu.request_interrupt(4);
    assert_eq!(cpu.mmu.read_memory(&0xFF0F), 0b10101);
    cpu.request_interrupt(1);
    assert_eq!(cpu.mmu.read_memory(&0xFF0F), 0b10111);
}

#[test]
fn check_interrupt_bit_reads_masks() {
    let cpu = Cpu::new(Game::new());
    assert!(cpu.check_interrupt_bit(&0, &0b00001));
    assert!(cpu.check_interrupt_bit(&2, &0b00100));
    assert!(cpu.check_interrupt_bit(&4, &0b10000));
    assert!(!cpu.check_interrupt_bit(&1, &0b00001));
    assert!(!cpu.check_interrupt_bit(&3, &0xFF));
}

#[test]
fn interrupt_priority_services_vblank_before_timer() {
    let mut cpu = Cpu::new(Game::new());
    // Request V-Blank and Timer, enable both.
    cpu.mmu.write_memory(&0xFF0F, 0b101);
    cpu.mmu.write_memory(&0xFFFF, 0b101);
    let pc_before = cpu.program_counter;
    let sp_before = cpu.stack_pointer;

    cpu.do_interrupts();

    // One service call: vectored to 0x40, not 0x50.
    assert_eq!(cpu.program_counter, 0x40);
    // Only the V-Blank request bit was cleared.
    assert_eq!(cpu.mmu.read_memory(&0xFF0F), 0b100);
    // The master enable dropped and the return address was pushed.
    assert!(!cpu.interrupt_master);
    assert_eq!(cpu.stack_pointer, sp_before - 2);
    assert_eq!(
        cpu.mmu.read_memory(&(sp_before as usize - 1)),
        (pc_before >> 8) as u8
    );
    assert_eq!(
        cpu.mmu.read_memory(&(sp_before as usize - 2)),
        (pc_before & 0xFF) as u8
    );
}

#[test]
fn interrupts_need_master_enable() {
    let mut cpu = Cpu::new(Game::new());
    cpu.mmu.write_memory(&0xFF0F, 0b1);
    cpu.mmu.write_memory(&0xFFFF, 0b1);
    cpu.interrupt_master = false;

    cpu.do_interrupts();

    // Nothing was serviced: the request stands and control never moved.
    assert_eq!(cpu.mmu.read_memory(&0xFF0F), 0b1);
    assert_eq!(cpu.program_counter, 0x100);
}

#[test]
fn interrupts_need_enable_bit() {
    let mut cpu = Cpu::new(Game::new());
    cpu.mmu.write_memory(&0xFF0F, 0b1);
    // The enable register stays zero: the pending request is not serviced.
    cpu.do_interrupts();
    assert_eq!(cpu.mmu.read_memory(&0xFF0F), 0b1);
    assert_eq!(cpu.program_counter, 0x100);
    assert!(cpu.interrupt_master);
}

#[test]
fn timer_interrupt_vectors_to_0x50() {
    let mut cpu = Cpu::new(Game::new());
    cpu.mmu.write_memory(&0xFF0F, 0b100);
    cpu.mmu.write_memory(&0xFFFF, 0b100);
    cpu.do_interrupts();
    assert_eq!(cpu.program_counter, 0x50);
    assert_eq!(cpu.mmu.read_memory(&0xFF0F), 0);
}

#[test]
fn joypad_interrupt_vectors_to_0x60() {
    let mut cpu = Cpu::new(Game::new());
    cpu.mmu.write_memory(&0xFF0F, 0b10000);
    cpu.mmu.write_memory(&0xFFFF, 0b10000);
    cpu.do_interrupts();
    assert_eq!(cpu.program_counter, 0x60);
}

#[test]
fn lcd_interrupt_vectors_to_0x48() {
    let mut cpu = Cpu::new(Game::new());
    cpu.mmu.write_memory(&0xFF0F, 0b10);
    cpu.mmu.write_memory(&0xFFFF, 0b10);
    cpu.do_interrupts();
    assert_eq!(cpu.program_counter, 0x48);
}
