use vstd::prelude::*;

use crate::game::{cart_byte, Game};
use crate::utils;

verus! {

// MEMORY MAP
//
// 0000-3FFF 16KB ROM bank 00 (in cartridge, fixed at bank 00)
// 4000-7FFF 16KB ROM bank 01..NN (in cartridge, switchable bank number)
// 8000-9FFF 8KB video RAM
// A000-BFFF 8KB external RAM (in cartridge, switchable bank, if any)
// C000-DFFF 8KB work RAM
// E000-FDFF echo of C000-DDFF
// FE00-FE9F sprite attribute table
// FEA0-FEFF not usable
// FF00-FF7F I/O registers
// FF80-FFFE high RAM
// FFFF      interrupt enable register

/// Which banking controller the cartridge carries, decided once from the
/// header byte after the cartridge is loaded. Exactly one variant (or
/// neither) is active.
#[derive(Clone, Copy, PartialEq, Eq, Structural, Debug)]
pub enum RomBankingType {
    NoBanking,
    Mbc1,
    Mbc2,
}

/// The mathematical state of the memory subsystem: the backing byte array,
/// the external RAM banks, the cartridge bytes, and the banking and timer
/// bookkeeping that reads and writes consult.
#[verifier::ext_equal]
pub ghost struct MmuModel {
    pub mem: Seq<u8>,
    pub ram: Seq<u8>,
    pub cart: Seq<u8>,
    pub joypad: u8,
    pub banking_type: RomBankingType,
    pub rom_banking: bool,
    pub current_rom_bank: u8,
    pub current_ram_bank: u8,
    pub enable_ram: bool,
    pub timer_counter: usize,
}

impl MmuModel {
    pub open spec fn wf(self) -> bool {
        &&& self.mem.len() == utils::MEMORY_SIZE
        &&& self.ram.len() == utils::RAM_BANKS_SIZE
        &&& self.cart.len() == utils::CARTRIDGE_SIZE
        &&& self.current_ram_bank < 4
        &&& self.current_rom_bank >= 1
    }
}

/// The byte the joypad I/O address resolves to: the stored byte is
/// inverted, and if one of the two selector bits is active the matching
/// nibble of the key state is folded in.
pub open spec fn joypad_spec(m: MmuModel) -> u8 {
    let result = m.mem[0xFF00] ^ 0xFF;
    if result & 32 > 0 {
        result & ((m.joypad >> 4) | 0xF0)
    } else if result & 16 > 0 {
        result & ((m.joypad & 0xF) | 0xF0)
    } else {
        result
    }
}

/// What a read of a logical address returns: the joypad address composes
/// the input byte, the switchable ROM and RAM windows resolve through the
/// active bank, and everything else reads the backing array directly.
pub open spec fn read_spec(m: MmuModel, address: usize) -> u8 {
    if address == 0xFF00 {
        joypad_spec(m)
    } else if 0x4000 <= address <= 0x7FFF {
        cart_byte(m.cart, (address - 0x4000) + m.current_rom_bank * 0x4000)
    } else if 0xA000 <= address <= 0xBFFF {
        m.ram[(address - 0xA000) + m.current_ram_bank * 0x2000]
    } else {
        m.mem[address as int]
    }
}

/// The timer reload count for a 2-bit frequency selector.
pub open spec fn frequency_period(code: u8) -> usize {
    if code == 0 {
        1024
    } else if code == 1 {
        16
    } else if code == 2 {
        64
    } else {
        256
    }
}

/// An address whose read goes straight to the backing array (no joypad
/// composition and no bank resolution).
pub open spec fn plain_read_addr(address: usize) -> bool {
    &&& address < utils::MEMORY_SIZE
    &&& address != 0xFF00
    &&& !(0x4000 <= address <= 0x7FFF)
    &&& !(0xA000 <= address <= 0xBFFF)
}

/// An address whose write goes straight to the backing array (no banking
/// interception, no RAM window, no special I/O side effect, no echo).
pub open spec fn plain_write_addr(address: usize) -> bool {
    &&& 0x8000 <= address < utils::MEMORY_SIZE
    &&& !(0xA000 <= address < 0xC000)
    &&& address != utils::DIVIDER_REGISTER_ADDR
    &&& address != utils::TIMER_CONTROLLER_ADDR
    &&& address != utils::CURRENT_SCANLINE_ADDR
    &&& address != 0xFF46
    &&& !(0xFEA0 <= address <= 0xFEFF)
    &&& !(0xE000 <= address <= 0xFDFF)
    &&& !(0xC000 <= address <= 0xDDFF)
}

/// An address where a write leaves the byte readable back at the same
/// address: either a plainly-stored one, or a work-RAM address, whose
/// write also lands in the echo region.
pub open spec fn direct_readback_addr(address: usize) -> bool {
    plain_write_addr(address) || (0xC000 <= address <= 0xDDFF)
}

/// The memory subsystem: owns the addressable space and dispatches reads
/// and writes to the cartridge banks, the RAM banks, and the side-effecting
/// I/O registers.
pub struct Mmu {
    pub memory: Vec<u8>,
    // Key state, one bit per key (right, left, up, down, A, B, select,
    // start), kept apart from the memory-mapped joypad byte.
    pub joypad: u8,
    pub banking_type: RomBankingType,
    pub rom_banking: bool,
    // The ROM bank currently visible in the 4000-7FFF window; bank 0 is
    // permanently mapped at 0000-3FFF and never selected here.
    pub current_rom_bank: u8,
    pub ram_banks: Vec<u8>,
    pub current_ram_bank: u8,
    pub enable_ram: bool,
    // Cycles left until the next timer increment.
    pub timer_counter: usize,
    pub cartridge: Game,
}

impl View for Mmu {
    type V = MmuModel;

    open spec fn view(&self) -> MmuModel {
        MmuModel {
            mem: self.memory@,
            ram: self.ram_banks@,
            cart: self.cartridge@,
            joypad: self.joypad,
            banking_type: self.banking_type,
            rom_banking: self.rom_banking,
            current_rom_bank: self.current_rom_bank,
            current_ram_bank: self.current_ram_bank,
            enable_ram: self.enable_ram,
            timer_counter: self.timer_counter,
        }
    }
}

/// The I/O registers hold documented power-on values; every other byte
/// above the cartridge area starts at zero.
pub open spec fn init_io_byte(a: int) -> u8 {
    if a == 0xFF10 {
        0x80
    } else if a == 0xFF11 {
        0xBF
    } else if a == 0xFF12 {
        0xF3
    } else if a == 0xFF14 {
        0xBF
    } else if a == 0xFF16 {
        0x3F
    } else if a == 0xFF19 {
        0xBF
    } else if a == 0xFF1A {
        0x7F
    } else if a == 0xFF1B {
        0xFF
    } else if a == 0xFF1C {
        0x9F
    } else if a == 0xFF1E {
        0xBF
    } else if a == 0xFF20 {
        0xFF
    } else if a == 0xFF23 {
        0xBF
    } else if a == 0xFF24 {
        0x77
    } else if a == 0xFF25 {
        0xF3
    } else if a == 0xFF26 {
        0xF1
    } else if a == 0xFF40 {
        0x91
    } else if a == 0xFF47 {
        0xFC
    } else if a == 0xFF48 {
        0xFF
    } else if a == 0xFF49 {
        0xFF
    } else {
        0
    }
}

/// The backing array at power-on: the first two cartridge banks mapped at
/// 0000-7FFF and the I/O registers at their documented values.
pub open spec fn init_mem_spec(cart: Seq<u8>) -> Seq<u8> {
    Seq::new(
        utils::MEMORY_SIZE as nat,
        |i: int|
            if i < 0x8000 {
                cart_byte(cart, i)
            } else {
                init_io_byte(i)
            },
    )
}

impl Mmu {
    pub open spec fn wf(&self) -> bool {
        self@.wf()
    }

    /// A memory subsystem at power-on over the given cartridge.
    pub fn new(game: Game) -> (mmu: Mmu)
        requires
            game.wf(),
        ensures
            mmu.wf(),
            mmu@.mem == init_mem_spec(game@),
            mmu@.ram == Seq::new(utils::RAM_BANKS_SIZE as nat, |i: int| 0u8),
            mmu@.cart == game@,
            mmu@.joypad == 7,
            mmu@.banking_type == RomBankingType::NoBanking,
            mmu@.rom_banking == true,
            mmu@.current_rom_bank == 1,
            mmu@.current_ram_bank == 0,
            mmu@.enable_ram == false,
            mmu@.timer_counter == 1024,
    {
        let mut memory: Vec<u8> = vec![0u8; utils::MEMORY_SIZE];

        // Map the first two cartridge banks into 0000-7FFF.
        let mut i: usize = 0;
        while i < 0x8000
            invariant
                i <= 0x8000,
                game.wf(),
                memory@.len() == utils::MEMORY_SIZE,
                forall|j: int| 0 <= j < i ==> memory@[j] == cart_byte(game@, j),
                forall|j: int| i <= j < utils::MEMORY_SIZE ==> memory@[j] == 0u8,
            decreases 0x8000 - i,
        {
            let b = game.read_catridge_data(i);
            memory[i] = b;
            i = i + 1;
        }

        // Power-on values of the I/O registers.
        memory[0xFF10] = 0x80;
        memory[0xFF11] = 0xBF;
        memory[0xFF12] = 0xF3;
        memory[0xFF14] = 0xBF;
        memory[0xFF16] = 0x3F;
        memory[0xFF19] = 0xBF;
        memory[0xFF1A] = 0x7F;
        memory[0xFF1B] = 0xFF;
        memory[0xFF1C] = 0x9F;
        memory[0xFF1E] = 0xBF;
        memory[0xFF20] = 0xFF;
        memory[0xFF23] = 0xBF;
        memory[0xFF24] = 0x77;
        memory[0xFF25] = 0xF3;
        memory[0xFF26] = 0xF1;
        memory[0xFF40] = 0x91;
        memory[0xFF47] = 0xFC;
        memory[0xFF48] = 0xFF;
        memory[0xFF49] = 0xFF;

        proof {
            assert(memory@ =~= init_mem_spec(game@));
        }

        let ram_banks: Vec<u8> = vec![0u8; utils::RAM_BANKS_SIZE];
        proof {
            assert(ram_banks@ =~= Seq::new(utils::RAM_BANKS_SIZE as nat, |i: int| 0u8));
        }

        Mmu {
            memory,
            joypad: 7,
            banking_type: RomBankingType::NoBanking,
            rom_banking: true,
            current_rom_bank: 1,
            ram_banks,
            current_ram_bank: 0,
            enable_ram: false,
            // Initial reload count for frequency selector 0.
            timer_counter: 1024,
            cartridge: game,
        }
    }

    /// Reads the banking controller variant out of the cartridge header
    /// byte held at 0x147.
    pub fn determine_rom_banking_type(&mut self)
        requires
            old(self).wf(),
        ensures
            final(self).wf(),
            final(self)@ == (MmuModel {
                banking_type: spec_banking_type(old(self)@.mem[0x147]),
                ..old(self)@
            }),
    {
        let header = self.memory[0x147];
        let t = if header == 1 || header == 2 || header == 3 {
            RomBankingType::Mbc1
        } else if header == 5 || header == 6 {
            RomBankingType::Mbc2
        } else {
            RomBankingType::NoBanking
        };
        self.banking_type = t;
    }

    /// Dispatches a read: the joypad byte is composed, the switchable ROM
    /// and RAM windows resolve through their active bank, everything else
    /// reads the backing array.
    pub fn read_memory(&self, address: &usize) -> (r: u8)
        requires
            self.wf(),
            *address < utils::MEMORY_SIZE,
        ensures
            r == read_spec(self@, *address),
    {
        let a = *address;
        if a == 0xFF00 {
            self.get_joypad_state()
        } else if 0x4000 <= a && a <= 0x7FFF {
            self.do_read_cartridge_data(a)
        } else if 0xA000 <= a && a <= 0xBFFF {
            self.do_read_ram_bank(a)
        } else {
            self.memory[a]
        }
    }

    fn do_read_cartridge_data(&self, address: usize) -> (r: u8)
        requires
            self.wf(),
            0x4000 <= address <= 0x7FFF,
        ensures
            r == cart_byte(self@.cart, (address - 0x4000) + self@.current_rom_bank * 0x4000),
    {
        let cartridge_address = (address - 0x4000) + ((self.current_rom_bank as usize) * 0x4000);
        self.cartridge.read_catridge_data(cartridge_address)
    }

    fn do_read_ram_bank(&self, address: usize) -> (r: u8)
        requires
            self.wf(),
            0xA000 <= address <= 0xBFFF,
        ensures
            r == self@.ram[(address - 0xA000) + self@.current_ram_bank * 0x2000],
    {
        let resolved_address = address - 0xA000;
        self.ram_banks[resolved_address + ((self.current_ram_bank as usize) * 0x2000)]
    }

    /// Composes the joypad I/O byte from the stored selector bits and the
    /// key state.
    pub fn get_joypad_state(&self) -> (r: u8)
        requires
            self.wf(),
        ensures
            r == joypad_spec(self@),
    {
        // The stored byte keeps pressed keys as zeros; flip it so set bits
        // mean "selected" below.
        let result = self.memory[0xFF00] ^ 0xFF;

        if result & 32 > 0 {
            // Standard buttons: fold the top nibble of the key state into
            // the low nibble of the answer.
            let top_nibble = (self.joypad >> 4) | 0xF0;
            result & top_nibble
        } else if result & 16 > 0 {
            // Directional keys: fold the bottom nibble in.
            let bottom_nibble = (self.joypad & 0xF) | 0xF0;
            result & bottom_nibble
        } else {
            result
        }
    }

    /// The 2-bit frequency selector of the timer controller.
    pub fn get_clock_frequency(&self) -> (r: u8)
        requires
            self.wf(),
        ensures
            r == self@.mem[utils::TIMER_CONTROLLER_ADDR as int] & 3,
    {
        self.read_memory(&utils::TIMER_CONTROLLER_ADDR) & 0x3
    }

    /// Reloads the cycles-to-next-increment count from the frequency
    /// selector currently held in the timer controller.
    pub fn set_clock_frequency(&mut self)
        requires
            old(self).wf(),
        ensures
            final(self).wf(),
            final(self)@ == (MmuModel {
                timer_counter: frequency_period(
                    old(self)@.mem[utils::TIMER_CONTROLLER_ADDR as int] & 3,
                ),
                ..old(self)@
            }),
    {
        let frequency = self.get_clock_frequency();
        proof {
            let c = old(self)@.mem[utils::TIMER_CONTROLLER_ADDR as int];
            assert(c & 3 <= 3) by (bit_vector);
        }
        self.timer_counter = if frequency == 0 {
            1024
        } else if frequency == 1 {
            16
        } else if frequency == 2 {
            64
        } else {
            256
        };
    }

    /// Lowers the cycles-to-next-increment count by the cycles just
    /// consumed, stopping at zero.
    pub fn decrease_timer_counter(&mut self, cycles: &usize)
        requires
            old(self).wf(),
        ensures
            final(self).wf(),
            final(self)@ == (MmuModel {
                timer_counter: if old(self)@.timer_counter >= *cycles {
                    (old(self)@.timer_counter - *cycles) as usize
                } else {
                    0
                },
                ..old(self)@
            }),
    {
        self.timer_counter = if self.timer_counter >= *cycles {
            self.timer_counter - *cycles
        } else {
            0
        };
    }

    pub fn get_timer_counter(&self) -> (r: &usize)
        ensures
            *r == self@.timer_counter,
    {
        &self.timer_counter
    }

    /// Bumps the visible divider register by one, wrapping at 255.
    pub fn increment_divider_register(&mut self)
        requires
            old(self).wf(),
        ensures
            final(self).wf(),
            final(self)@ == (MmuModel {
                mem: old(self)@.mem.update(
                    utils::DIVIDER_REGISTER_ADDR as int,
                    vstd::wrapping::u8_specs::wrapping_add(
                        old(self)@.mem[utils::DIVIDER_REGISTER_ADDR as int],
                        1,
                    ),
                ),
                ..old(self)@
            }),
    {
        let b = self.memory[utils::DIVIDER_REGISTER_ADDR].wrapping_add(1);
        self.memory[utils::DIVIDER_REGISTER_ADDR] = b;
    }

    /// Advances the visible scanline index by one, wrapping at 255. Only
    /// the rendering path may use this; external writes to the scanline
    /// address reset it instead.
    pub fn increment_scanline_value(&mut self)
        requires
            old(self).wf(),
        ensures
            final(self).wf(),
            final(self)@ == (MmuModel {
                mem: old(self)@.mem.update(
                    utils::CURRENT_SCANLINE_ADDR as int,
                    vstd::wrapping::u8_specs::wrapping_add(
                        old(self)@.mem[utils::CURRENT_SCANLINE_ADDR as int],
                        1,
                    ),
                ),
                ..old(self)@
            }),
    {
        let b = self.memory[utils::CURRENT_SCANLINE_ADDR].wrapping_add(1);
        self.memory[utils::CURRENT_SCANLINE_ADDR] = b;
    }

    /// Winds the visible scanline index back to zero.
    pub fn reset_scanline_value(&mut self)
        requires
            old(self).wf(),
        ensures
            final(self).wf(),
            final(self)@ == (MmuModel {
                mem: old(self)@.mem.update(utils::CURRENT_SCANLINE_ADDR as int, 0u8),
                ..old(self)@
            }),
    {
        self.memory[utils::CURRENT_SCANLINE_ADDR] = 0;
    }
}

/// The banking controller variant a cartridge header byte selects.
pub open spec fn spec_banking_type(header: u8) -> RomBankingType {
    if header == 1 || header == 2 || header == 3 {
        RomBankingType::Mbc1
    } else if header == 5 || header == 6 {
        RomBankingType::Mbc2
    } else {
        RomBankingType::NoBanking
    }
}

/// RAM enabling: only the second controller variant reacts, and only to a
/// lower data nibble of 0xA (enable) or 0x0 (disable); any other nibble
/// leaves the latch alone.
pub open spec fn enable_ram_spec(m: MmuModel, data: u8) -> MmuModel {
    if m.banking_type == RomBankingType::Mbc2 {
        let lower_nibble = data & 0xF;
        if lower_nibble == 0xA {
            MmuModel { enable_ram: true, ..m }
        } else if lower_nibble == 0 {
            MmuModel { enable_ram: false, ..m }
        } else {
            m
        }
    } else {
        m
    }
}

/// A computed bank index of 0 is corrected to 1: bank 0 is permanently
/// mapped and never independently selectable.
pub open spec fn correct_rom_bank(bank: u8) -> u8 {
    if bank == 0 {
        1
    } else {
        bank
    }
}

/// The low ROM bank change: the first variant replaces the low 5 bits of
/// the bank index, the second replaces the whole index from the low
/// nibble; either way a result of 0 becomes 1.
pub open spec fn rom_lo_bank_spec(m: MmuModel, data: u8) -> MmuModel {
    match m.banking_type {
        RomBankingType::Mbc1 => MmuModel {
            current_rom_bank: correct_rom_bank((m.current_rom_bank & 224) | (data & 31)),
            ..m
        },
        RomBankingType::Mbc2 => MmuModel {
            current_rom_bank: correct_rom_bank(data & 0xF),
            ..m
        },
        RomBankingType::NoBanking => m,
    }
}

/// The high ROM bank change (first variant only): replaces the top 3 bits
/// of the bank index; a result of 0 becomes 1.
pub open spec fn rom_hi_bank_spec(m: MmuModel, data: u8) -> MmuModel {
    MmuModel {
        current_rom_bank: correct_rom_bank((m.current_rom_bank & 31) | (data & 224)),
        ..m
    }
}

/// The RAM bank change (first variant only): the low 2 bits of the data
/// select the bank.
pub open spec fn ram_bank_spec(m: MmuModel, data: u8) -> MmuModel {
    MmuModel { current_ram_bank: data & 0x3, ..m }
}

/// The banking-mode change (first variant only): bit 0 of the data clear
/// selects ROM banking and forces the RAM bank back to 0; set selects RAM
/// banking.
pub open spec fn change_rom_ram_mode_spec(m: MmuModel, data: u8) -> MmuModel {
    if m.banking_type == RomBankingType::Mbc1 {
        if data & 1 == 0 {
            MmuModel { rom_banking: true, current_ram_bank: 0, ..m }
        } else {
            MmuModel { rom_banking: false, ..m }
        }
    } else {
        m
    }
}

/// The dual-purpose bank-select range: the mode flag decides whether it
/// changes the high ROM bank bits or the RAM bank (first variant only).
pub open spec fn rom_or_ram_bank_spec(m: MmuModel, data: u8) -> MmuModel {
    if m.banking_type == RomBankingType::Mbc1 {
        if m.rom_banking {
            rom_hi_bank_spec(m, data)
        } else {
            ram_bank_spec(m, data)
        }
    } else {
        m
    }
}

/// What a write below 0x8000 does: it never stores, it drives the banking
/// controller through four sub-ranges.
pub open spec fn banking_spec(m: MmuModel, address: usize, data: u8) -> MmuModel {
    if address < 0x2000 {
        enable_ram_spec(m, data)
    } else if address < 0x4000 {
        rom_lo_bank_spec(m, data)
    } else if address < 0x6000 {
        rom_or_ram_bank_spec(m, data)
    } else {
        change_rom_ram_mode_spec(m, data)
    }
}

/// What a write into the switchable RAM window does: it stores through the
/// active bank only while RAM is enabled.
pub open spec fn ram_write_spec(m: MmuModel, address: usize, data: u8) -> MmuModel {
    if m.enable_ram {
        MmuModel { ram: m.ram.update((address - 0xA000) + m.current_ram_bank * 0x2000, data), ..m }
    } else {
        m
    }
}

/// What a write of the timer controller does: the byte is stored, and if
/// the 2-bit frequency selector changed, the reload count is refreshed at
/// once.
pub open spec fn timer_control_spec(m: MmuModel, data: u8) -> MmuModel {
    let old_frequency = m.mem[utils::TIMER_CONTROLLER_ADDR as int] & 3;
    let new_frequency = data & 3;
    let stored = MmuModel { mem: m.mem.update(utils::TIMER_CONTROLLER_ADDR as int, data), ..m };
    if old_frequency != new_frequency {
        MmuModel { timer_counter: frequency_period(new_frequency), ..stored }
    } else {
        stored
    }
}

/// What the DMA trigger does: 160 bytes are copied from the source page
/// (the written byte shifted left 8 bits) into the sprite attribute table,
/// each source byte read through the normal read dispatch.
pub open spec fn dma_spec(m: MmuModel, data: u8) -> MmuModel {
    MmuModel {
        mem: Seq::new(
            utils::MEMORY_SIZE as nat,
            |i: int|
                if 0xFE00 <= i <= 0xFE9F {
                    read_spec(m, (data * 256 + (i - 0xFE00)) as usize)
                } else {
                    m.mem[i]
                },
        ),
        ..m
    }
}

/// What a write of a logical address does, in dispatch priority order:
/// ROM-mapped addresses drive the banking controller, the RAM window
/// stores through the active bank, the side-effecting I/O registers react
/// specially, the restricted region rejects the write, the echo region
/// and its work-RAM mirror keep each other in step (a write to either
/// lands in both), and everything else stores directly.
pub open spec fn write_spec(m: MmuModel, address: usize, data: u8) -> MmuModel {
    if address < 0x8000 {
        banking_spec(m, address, data)
    } else if 0xA000 <= address < 0xC000 {
        ram_write_spec(m, address, data)
    } else if address == utils::DIVIDER_REGISTER_ADDR {
        MmuModel { mem: m.mem.update(utils::DIVIDER_REGISTER_ADDR as int, 0u8), ..m }
    } else if address == utils::TIMER_CONTROLLER_ADDR {
        timer_control_spec(m, data)
    } else if address == utils::CURRENT_SCANLINE_ADDR {
        MmuModel { mem: m.mem.update(utils::CURRENT_SCANLINE_ADDR as int, 0u8), ..m }
    } else if address == utils::DMA_TRIGGER_ADDR {
        dma_spec(m, data)
    } else if 0xFEA0 <= address <= 0xFEFF {
        m
    } else if 0xE000 <= address <= 0xFDFF {
        MmuModel {
            mem: m.mem.update(address - 0x2000, data).update(address as int, data),
            ..m
        }
    } else if 0xC000 <= address <= 0xDDFF {
        MmuModel {
            mem: m.mem.update(address as int, data).update(address + 0x2000, data),
            ..m
        }
    } else {
        MmuModel { mem: m.mem.update(address as int, data), ..m }
    }
}

impl Mmu {
    /// Dispatches a write as `write_spec` describes.
    pub fn write_memory(&mut self, address: &usize, data: u8)
        requires
            old(self).wf(),
            *address < utils::MEMORY_SIZE,
        ensures
            final(self).wf(),
            final(self)@ == write_spec(old(self)@, *address, data),
    {
        let a = *address;
        if a < 0x8000 {
            // ROM-mapped range: read-only, the write drives the banking
            // controller instead.
            self.do_handle_banking(address, data);
        } else if 0xA000 <= a && a < 0xC000 {
            self.do_handle_ram_banks(address, data);
        } else if a == utils::DIVIDER_REGISTER_ADDR {
            // Any write resets the divider register to zero.
            self.memory[a] = 0;
        } else if a == utils::TIMER_CONTROLLER_ADDR {
            self.do_handle_timer_controller(data);
        } else if a == utils::CURRENT_SCANLINE_ADDR {
            // Any external write resets the scanline index to zero.
            self.memory[a] = 0;
        } else if a == utils::DMA_TRIGGER_ADDR {
            self.do_dma_transer(data);
        } else if 0xFEA0 <= a && a <= 0xFEFF {
            // Restricted region: the write is rejected.
        } else if 0xE000 <= a && a <= 0xFDFF {
            self.do_echo_write(address, data);
        } else if 0xC000 <= a && a <= 0xDDFF {
            self.do_work_ram_write(address, data);
        } else {
            self.do_write_data(address, data);
        }
    }

    fn do_write_data(&mut self, address: &usize, data: u8)
        requires
            old(self).wf(),
            *address < utils::MEMORY_SIZE,
        ensures
            final(self).wf(),
            final(self)@ == (MmuModel {
                mem: old(self)@.mem.update(*address as int, data),
                ..old(self)@
            }),
    {
        self.memory[*address] = data;
    }

    fn do_handle_banking(&mut self, address: &usize, data: u8)
        requires
            old(self).wf(),
            *address < 0x8000,
        ensures
            final(self).wf(),
            final(self)@ == banking_spec(old(self)@, *address, data),
    {
        let a = *address;
        if a < 0x2000 {
            self.do_enable_ram_banking(data);
        } else if a < 0x4000 {
            self.do_rom_lo_bank_change(data);
        } else if a < 0x6000 {
            self.do_rom_or_ram_bank_change(data);
        } else {
            self.do_change_rom_ram_mode(data);
        }
    }

    fn do_handle_ram_banks(&mut self, address: &usize, data: u8)
        requires
            old(self).wf(),
            0xA000 <= *address < 0xC000,
        ensures
            final(self).wf(),
            final(self)@ == ram_write_spec(old(self)@, *address, data),
    {
        if self.enable_ram {
            let resolved_address = *address - 0xA000;
            let index = resolved_address + ((self.current_ram_bank as usize) * 0x2000);
            self.ram_banks[index] = data;
        }
    }

    fn do_handle_timer_controller(&mut self, data: u8)
        requires
            old(self).wf(),
        ensures
            final(self).wf(),
            final(self)@ == timer_control_spec(old(self)@, data),
    {
        let current_frequency = self.get_clock_frequency();
        self.memory[utils::TIMER_CONTROLLER_ADDR] = data;
        let new_frequency = self.get_clock_frequency();

        if current_frequency != new_frequency {
            self.set_clock_frequency();
        }
    }

    fn do_dma_transer(&mut self, data: u8)
        requires
            old(self).wf(),
        ensures
            final(self).wf(),
            final(self)@ == dma_spec(old(self)@, data),
    {
        // The written byte names the source page: the source address is
        // the byte shifted left 8 bits.
        let source_base: usize = (data as usize) * 256;

        // Gather the 160 source bytes first, then store them into the
        // sprite attribute table.
        let mut buffer: Vec<u8> = Vec::new();
        let mut i: usize = 0;
        while i < 160
            invariant
                old(self).wf(),
                i <= 160,
                *self == *old(self),
                source_base == data * 256,
                buffer@.len() == i,
                forall|j: int|
                    0 <= j < i ==> buffer@[j] == read_spec(old(self)@, (data * 256 + j) as usize),
            decreases 160 - i,
        {
            let b = self.read_memory(&(source_base + i));
            buffer.push(b);
            i = i + 1;
        }

        let mut i: usize = 0;
        while i < 160
            invariant
                old(self).wf(),
                i <= 160,
                buffer@.len() == 160,
                forall|j: int|
                    0 <= j < 160 ==> buffer@[j] == read_spec(old(self)@, (data * 256 + j) as usize),
                self.memory@.len() == utils::MEMORY_SIZE,
                self@ == (MmuModel { mem: self.memory@, ..old(self)@ }),
                forall|k: int|
                    0xFE00 <= k < 0xFE00 + i ==> self.memory@[k] == buffer@[k - 0xFE00],
                forall|k: int|
                    0 <= k < utils::MEMORY_SIZE && !(0xFE00 <= k < 0xFE00 + i)
                        ==> self.memory@[k] == old(self)@.mem[k],
            decreases 160 - i,
        {
            let b = buffer[i];
            self.memory[0xFE00 + i] = b;
            i = i + 1;
        }

        proof {
            assert(self@ =~= dma_spec(old(self)@, data));
        }
    }

    fn do_echo_write(&mut self, address: &usize, data: u8)
        requires
            old(self).wf(),
            0xE000 <= *address <= 0xFDFF,
        ensures
            final(self).wf(),
            final(self)@ == (MmuModel {
                mem: old(self)@.mem.update(*address - 0x2000, data).update(*address as int, data),
                ..old(self)@
            }),
    {
        // The echo region duplicates the write into work RAM.
        let echo_address = *address - 0x2000;
        self.memory[echo_address] = data;
        self.memory[*address] = data;
    }

    fn do_work_ram_write(&mut self, address: &usize, data: u8)
        requires
            old(self).wf(),
            0xC000 <= *address <= 0xDDFF,
        ensures
            final(self).wf(),
            final(self)@ == (MmuModel {
                mem: old(self)@.mem.update(*address as int, data).update(*address + 0x2000, data),
                ..old(self)@
            }),
    {
        // Work RAM and its echo stay in step: the write lands in both.
        self.memory[*address] = data;
        let echo_address = *address + 0x2000;
        self.memory[echo_address] = data;
    }

    fn do_enable_ram_banking(&mut self, data: u8)
        requires
            old(self).wf(),
        ensures
            final(self).wf(),
            final(self)@ == enable_ram_spec(old(self)@, data),
    {
        match self.banking_type {
            RomBankingType::Mbc2 => {
                let lower_nibble = data & 0xF;
                if lower_nibble == 0xA {
                    self.enable_ram = true;
                } else if lower_nibble == 0 {
                    self.enable_ram = false;
                }
            },
            _ => {},
        }
    }

    fn do_rom_lo_bank_change(&mut self, data: u8)
        requires
            old(self).wf(),
        ensures
            final(self).wf(),
            final(self)@ == rom_lo_bank_spec(old(self)@, data),
    {
        match self.banking_type {
            RomBankingType::Mbc1 => {
                // Replace the low 5 bits of the bank index.
                let lower_five_bits = data & 31;
                let mut bank = (self.current_rom_bank & 224) | lower_five_bits;
                if bank == 0 {
                    // Bank 0 is always mapped at 0000-3FFF and cannot be
                    // the switchable bank.
                    bank = 1;
                }
                self.current_rom_bank = bank;
            },
            RomBankingType::Mbc2 => {
                // The low nibble is the whole bank index.
                let mut bank = data & 0xF;
                if bank == 0 {
                    bank = 1;
                }
                self.current_rom_bank = bank;
            },
            RomBankingType::NoBanking => {},
        }
    }

    fn do_rom_hi_bank_change(&mut self, data: u8)
        requires
            old(self).wf(),
        ensures
            final(self).wf(),
            final(self)@ == rom_hi_bank_spec(old(self)@, data),
    {
        // Replace the top 3 bits of the bank index.
        let kept = self.current_rom_bank & 31;
        let new_bits = data & 224;
        let mut bank = kept | new_bits;
        if bank == 0 {
            bank = 1;
        }
        self.current_rom_bank = bank;
    }

    fn do_ram_bank_change(&mut self, data: u8)
        requires
            old(self).wf(),
        ensures
            final(self).wf(),
            final(self)@ == ram_bank_spec(old(self)@, data),
    {
        proof {
            assert(data & 0x3 < 4) by (bit_vector);
        }
        self.current_ram_bank = data & 0x3;
    }

    fn do_change_rom_ram_mode(&mut self, data: u8)
        requires
            old(self).wf(),
        ensures
            final(self).wf(),
            final(self)@ == change_rom_ram_mode_spec(old(self)@, data),
    {
        match self.banking_type {
            RomBankingType::Mbc1 => {
                if data & 1 == 0 {
                    self.rom_banking = true;
                    // ROM-banking mode pins the RAM bank back to 0.
                    self.current_ram_bank = 0;
                } else {
                    self.rom_banking = false;
                }
            },
            _ => {},
        }
    }

    fn do_rom_or_ram_bank_change(&mut self, data: u8)
        requires
            old(self).wf(),
        ensures
            final(self).wf(),
            final(self)@ == rom_or_ram_bank_spec(old(self)@, data),
    {
        match self.banking_type {
            RomBankingType::Mbc1 => {
                if self.rom_banking {
                    self.do_rom_hi_bank_change(data);
                } else {
                    self.do_ram_bank_change(data);
                }
            },
            _ => {},
        }
    }
}

/// A write into the echo region stores the byte at both the echo address
/// and its work-RAM mirror: reading either afterwards yields the byte.
pub proof fn lemma_echo_write_mirrors(m: MmuModel, address: usize, data: u8)
    requires
        m.wf(),
        0xE000 <= address <= 0xFDFF,
    ensures
        read_spec(write_spec(m, address, data), address) == data,
        read_spec(write_spec(m, address, data), (address - 0x2000) as usize) == data,
{
}

/// The same coherence the other way round: a write into the mirrored part
/// of work RAM lands at both the address and its echo, so reading either
/// afterwards yields the byte.
pub proof fn lemma_work_ram_write_mirrors(m: MmuModel, address: usize, data: u8)
    requires
        m.wf(),
        0xC000 <= address <= 0xDDFF,
    ensures
        read_spec(write_spec(m, address, data), address) == data,
        read_spec(write_spec(m, address, data), (address + 0x2000) as usize) == data,
{
}

/// A write into any ROM-mapped address never alters the backing bytes,
/// the RAM banks, or the cartridge: only banking state can change.
pub proof fn lemma_rom_write_preserves_bytes(m: MmuModel, address: usize, data: u8)
    requires
        m.wf(),
        address < 0x8000,
    ensures
        write_spec(m, address, data).mem == m.mem,
        write_spec(m, address, data).ram == m.ram,
        write_spec(m, address, data).cart == m.cart,
{
}

/// No write can leave the switchable ROM bank at 0: a banking write whose
/// computed index is 0 selects bank 1 instead.
pub proof fn lemma_rom_bank_never_zero(m: MmuModel, address: usize, data: u8)
    requires
        m.wf(),
        address < utils::MEMORY_SIZE,
    ensures
        write_spec(m, address, data).current_rom_bank >= 1,
{
}

/// Writes preserve the memory subsystem's well-formedness: array sizes
/// stay fixed, the RAM bank index stays under 4, and the ROM bank index
/// never falls to 0.
pub proof fn lemma_write_spec_wf(m: MmuModel, address: usize, data: u8)
    requires
        m.wf(),
        address < utils::MEMORY_SIZE,
    ensures
        write_spec(m, address, data).wf(),
{
    assert(data & 0x3 < 4) by (bit_vector);
}

/// An MBC1 write into the low bank-select range replaces exactly the low
/// five bits of the ROM bank index, corrected to 1 where the combination
/// is 0: bank 0 is never selectable.
pub proof fn lemma_mbc1_low_bank_select(m: MmuModel, address: usize, data: u8)
    requires
        m.wf(),
        m.banking_type == RomBankingType::Mbc1,
        0x2000 <= address < 0x4000,
    ensures
        write_spec(m, address, data).current_rom_bank == correct_rom_bank(
            (m.current_rom_bank & 224) | (data & 31),
        ),
        write_spec(m, address, data).current_rom_bank >= 1,
{
}

/// An MBC1 write into the dual-purpose range while ROM banking is
/// selected replaces exactly the top three bits of the ROM bank index,
/// preserves the low five where the combination is nonzero, and never
/// leaves bank 0 selected.
pub proof fn lemma_mbc1_high_bank_select(m: MmuModel, address: usize, data: u8)
    requires
        m.wf(),
        m.banking_type == RomBankingType::Mbc1,
        m.rom_banking,
        0x4000 <= address < 0x6000,
    ensures
        write_spec(m, address, data).current_rom_bank == correct_rom_bank(
            (m.current_rom_bank & 31) | (data & 224),
        ),
        write_spec(m, address, data).current_rom_bank >= 1,
        (m.current_rom_bank & 31) | (data & 224) != 0 ==> write_spec(
            m,
            address,
            data,
        ).current_rom_bank & 31 == m.current_rom_bank & 31,
{
    let b = m.current_rom_bank;
    let d = data;
    assert(((b & 31) | (d & 224)) & 31 == b & 31) by (bit_vector);
}

/// A write anywhere but the interrupt request register leaves that
/// register's byte alone.
pub proof fn lemma_write_preserves_request(m: MmuModel, address: usize, data: u8)
    requires
        m.wf(),
        address < utils::MEMORY_SIZE,
        address != utils::INTERRUPT_REQUEST_ADDR,
    ensures
        write_spec(m, address, data).mem[utils::INTERRUPT_REQUEST_ADDR as int]
            == m.mem[utils::INTERRUPT_REQUEST_ADDR as int],
{
}

} // verus!
