use vstd::prelude::*;

verus! {

// Flag bits in the F half of the AF register pair.
pub const ZERO_BIT: u8 = 7;
pub const SUBTRACT_BIT: u8 = 6;
pub const HALF_CARRY_BIT: u8 = 5;
pub const CARRY_BIT: u8 = 4;

// The divider register counts up continuously; any write resets it to zero.
pub const DIVIDER_REGISTER_ADDR: usize = 0xFF04;

// The timer counts up at the configured frequency and lives here.
pub const TIMER_ADDR: usize = 0xFF05;

// On timer overflow the timer is reloaded from the modulator held here.
pub const TIMER_MODULATOR_ADDR: usize = 0xFF06;

// Timer controller byte: the low two bits select the frequency
// (0: 4096 Hz, 1: 262144 Hz, 2: 65536 Hz, 3: 16384 Hz) and bit 2 says
// whether the timer is enabled.
pub const TIMER_CONTROLLER_ADDR: usize = 0xFF07;

// Interrupt bitmasks: bit 0 V-Blank, bit 1 LCD status, bit 2 Timer,
// bit 4 Joypad. The lower the bit, the higher the priority.
pub const INTERRUPT_ENABLED_ADDR: usize = 0xFFFF;
pub const INTERRUPT_REQUEST_ADDR: usize = 0xFF0F;

// The index of the scanline currently being drawn.
pub const CURRENT_SCANLINE_ADDR: usize = 0xFF44;

// LCD status byte: bits 1..0 hold the current mode (0 horizontal blank,
// 1 vertical blank, 2 searching sprite attributes, 3 transferring data),
// bits 3..5 enable the mode interrupts, bit 2 is the coincidence flag and
// bit 6 enables the coincidence interrupt.
pub const LCD_STATUS_ADDR: usize = 0xFF41;

// LCD control byte: bit 7 display enable, bit 6 window tile map select,
// bit 5 window enable, bit 4 tile data select, bit 3 background tile map
// select, bit 2 sprite size, bit 1 sprite enable, bit 0 background enable.
pub const LCD_CONTROL_ADDR: usize = 0xFF40;

// Scroll registers position the background; window registers position the
// window overlay (the stored window X is offset by 7).
pub const SCROLL_Y_ADDR: usize = 0xFF42;
pub const SCROLL_X_ADDR: usize = 0xFF43;
pub const WINDOW_Y_ADDR: usize = 0xFF4A;
pub const WINDOW_X_ADDR: usize = 0xFF4B;

// A write here launches a direct memory access copy of 160 bytes into the
// sprite attribute table.
pub const DMA_TRIGGER_ADDR: usize = 0xFF46;

// The scanline index is compared against this register for the
// coincidence flag.
pub const SCANLINE_COMPARE_ADDR: usize = 0xFF45;

// The background palette maps 2-bit colour indices to shades.
pub const COLOR_PALLETTE_ADDR: usize = 0xFF47;

// First byte of the sprite attribute table; each sprite owns four bytes.
pub const SPRITE_ATTRIBUTE_ADDR: usize = 0xFE00;

// Size of the full logical address space.
pub const MEMORY_SIZE: usize = 0x10000;

// Size of the external RAM bank storage (four banks of 0x2000 bytes).
pub const RAM_BANKS_SIZE: usize = 0x8000;

// Size of the cartridge storage (four banks of 0x8000 bytes).
pub const CARTRIDGE_SIZE: usize = 0x20000;

// Screen dimensions and the flat RGB pixel buffer size.
pub const SCREEN_WIDTH: usize = 160;
pub const SCREEN_HEIGHT: usize = 144;
pub const SCREEN_DATA_SIZE: usize = 160 * 144 * 3;

} // verus!
