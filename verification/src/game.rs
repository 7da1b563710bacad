use vstd::prelude::*;
use crate::utils;

verus! {

/// The cartridge collaborator: a plain store of raw bytes that the memory
/// subsystem reads through already-bank-resolved absolute addresses.
pub struct Game {
    pub data: Vec<u8>,
}

impl View for Game {
    type V = Seq<u8>;

    open spec fn view(&self) -> Seq<u8> {
        self.data@
    }
}

/// The byte a cartridge holds at an absolute address: bytes past the end of
/// the storage read as zero.
pub open spec fn cart_byte(cart: Seq<u8>, address: int) -> u8 {
    if 0 <= address < cart.len() {
        cart[address]
    } else {
        0
    }
}

impl Game {
    pub open spec fn wf(&self) -> bool {
        self@.len() == utils::CARTRIDGE_SIZE
    }

    /// A fresh cartridge with all storage zeroed.
    pub fn new() -> (g: Game)
        ensures
            g.wf(),
            forall|i: int| 0 <= i < utils::CARTRIDGE_SIZE ==> g@[i] == 0u8,
    {
        let data: Vec<u8> = vec![0u8; utils::CARTRIDGE_SIZE];
        Game { data }
    }

    /// Copies a binary image into the cartridge storage, truncating or
    /// zero-padding it to the storage size.
    pub fn load_game_memory(&mut self, rom: &Vec<u8>)
        ensures
            final(self).wf(),
            forall|i: int|
                0 <= i < utils::CARTRIDGE_SIZE ==> final(self)@[i] == (if i < rom@.len() {
                    rom@[i]
                } else {
                    0u8
                }),
    {
        let mut data: Vec<u8> = vec![0u8; utils::CARTRIDGE_SIZE];
        let mut i: usize = 0;
        while i < utils::CARTRIDGE_SIZE
            invariant
                i <= utils::CARTRIDGE_SIZE,
                data@.len() == utils::CARTRIDGE_SIZE,
                forall|j: int|
                    0 <= j < i ==> data@[j] == (if j < rom@.len() {
                        rom@[j]
                    } else {
                        0u8
                    }),
                forall|j: int| i <= j < utils::CARTRIDGE_SIZE ==> data@[j] == 0u8,
            decreases utils::CARTRIDGE_SIZE - i,
        {
            if i < rom.len() {
                data[i] = rom[i];
            }
            i = i + 1;
        }
        self.data = data;
    }

    /// The byte at an absolute cartridge address.
    pub fn read_catridge_data(&self, address: usize) -> (r: u8)
        ensures
            r == cart_byte(self@, address as int),
    {
        if address < self.data.len() {
            self.data[address]
        } else {
            0
        }
    }
}

} // verus!
