use vstd::prelude::*;

use crate::cpu::{Cpu, CpuModel};
use crate::mmu::{self, MmuModel};
use crate::utils;

verus! {

/// One of the four shades the monochrome palette can produce.
#[derive(Clone, Copy, PartialEq, Eq, Structural, Debug)]
pub enum Shade {
    White,
    LightGray,
    DarkGray,
    Black,
}

/// The shade a palette byte assigns to a 2-bit colour index: each index
/// owns two bits of the palette, read as a 2-bit shade number.
pub open spec fn shade_of(pallette: u8, color_num: u8) -> Shade {
    let hi: u8 = if color_num == 0 {
        1
    } else if color_num == 1 {
        3
    } else if color_num == 2 {
        5
    } else {
        7
    };
    let lo: u8 = if color_num == 0 {
        0
    } else if color_num == 1 {
        2
    } else if color_num == 2 {
        4
    } else {
        6
    };
    let color = (((pallette >> hi) & 1) << 1) | ((pallette >> lo) & 1);
    if color == 1 {
        Shade::LightGray
    } else if color == 2 {
        Shade::DarkGray
    } else if color == 3 {
        Shade::Black
    } else {
        Shade::White
    }
}

/// The byte written into each of a pixel's three channels for a shade:
/// white 255, light gray 0x77, dark gray 0xCC, black 0.
pub open spec fn shade_level(shade: Shade) -> u8 {
    match shade {
        Shade::White => 255,
        Shade::LightGray => 0x77,
        Shade::DarkGray => 0xCC,
        Shade::Black => 0,
    }
}

/// A pixel write into the flat row-major RGB buffer; coordinates outside
/// the 160 by 144 screen never touch the buffer.
pub open spec fn write_pixel_spec(screen: Seq<u8>, x: int, y: int, r: u8, g: u8, b: u8) -> Seq<
    u8,
> {
    if 0 <= x < 160 && 0 <= y < 144 {
        let base = (y * 160 + x) * 3;
        screen.update(base, r).update(base + 1, g).update(base + 2, b)
    } else {
        screen
    }
}

/// The LCD mode for a scanline position: vertical blank at and past
/// scanline 144; otherwise the 456-cycle budget splits into 80 cycles of
/// sprite search, 172 of transfer, and horizontal blank for the rest.
pub open spec fn lcd_mode(scanline: u8, counter: u16) -> u8 {
    if scanline >= 144 {
        1
    } else if counter > 376 {
        2
    } else if counter > 204 {
        3
    } else {
        0
    }
}

/// Whether the status byte enables the interrupt for a mode (bit 3 for
/// horizontal blank, 4 for vertical blank, 5 for sprite search; the
/// transfer mode has none).
pub open spec fn lcd_mode_interrupt_enabled(status: u8, mode: u8) -> bool {
    if mode == 1 {
        status & 16 > 0
    } else if mode == 2 {
        status & 32 > 0
    } else if mode == 0 {
        status & 8 > 0
    } else {
        false
    }
}

/// The status byte a poll writes back while the LCD runs: the mode in the
/// low two bits and the coincidence flag in bit 2.
pub open spec fn lcd_status_byte(m: MmuModel, counter: u16) -> u8 {
    let status = m.mem[utils::LCD_STATUS_ADDR as int];
    let scanline = m.mem[utils::CURRENT_SCANLINE_ADDR as int];
    let with_mode = (status & 252) | lcd_mode(scanline, counter);
    if scanline == m.mem[utils::SCANLINE_COMPARE_ADDR as int] {
        with_mode | 4
    } else {
        with_mode & 251
    }
}

/// Whether a status poll raises the LCD interrupt: either the mode
/// actually changed and its interrupt is enabled, or the coincidence
/// comparison holds and bit 6 enables it.
pub open spec fn lcd_interrupt_fires(m: MmuModel, counter: u16) -> bool {
    let status = m.mem[utils::LCD_STATUS_ADDR as int];
    let scanline = m.mem[utils::CURRENT_SCANLINE_ADDR as int];
    let mode = lcd_mode(scanline, counter);
    let with_mode = (status & 252) | mode;
    ||| (lcd_mode_interrupt_enabled(with_mode, mode) && mode != (status & 3))
    ||| (scanline == m.mem[utils::SCANLINE_COMPARE_ADDR as int] && (with_mode | 4) & 64 > 0)
}

/// One status poll: with the LCD disabled the mode pins to vertical blank
/// and the scanline counting restarts; otherwise the mode and coincidence
/// bits are refreshed and the LCD interrupt may be raised.
pub open spec fn set_lcd_status_spec(c: CpuModel) -> CpuModel {
    let mem = c.mmu.mem;
    if mem[utils::LCD_CONTROL_ADDR as int] & 128 == 0 {
        let status = (mem[utils::LCD_STATUS_ADDR as int] & 252) | 1;
        CpuModel {
            scanline_counter: 456,
            mmu: MmuModel {
                mem: mem.update(utils::CURRENT_SCANLINE_ADDR as int, 0u8).update(
                    utils::LCD_STATUS_ADDR as int,
                    status,
                ),
                ..c.mmu
            },
            ..c
        }
    } else {
        let mem1 = if lcd_interrupt_fires(c.mmu, c.scanline_counter) {
            mem.update(
                utils::INTERRUPT_REQUEST_ADDR as int,
                mem[utils::INTERRUPT_REQUEST_ADDR as int] | 2,
            )
        } else {
            mem
        };
        CpuModel {
            mmu: MmuModel {
                mem: mem1.update(
                    utils::LCD_STATUS_ADDR as int,
                    lcd_status_byte(c.mmu, c.scanline_counter),
                ),
                ..c.mmu
            },
            ..c
        }
    }
}

/// The shade byte the background or window produces for one horizontal
/// pixel of the current scanline: the scroll or window registers place the
/// pixel in the 256 by 256 tile plane, the selected tile map names a tile,
/// the selected tile data region supplies its two bit-planes, and the
/// palette maps the combined 2-bit colour index to a shade.
#[verifier::opaque]
pub open spec fn tile_pixel_level(m: MmuModel, lcd_control: u8, pixel: u8) -> u8 {
    let scanline = m.mem[utils::CURRENT_SCANLINE_ADDR as int];
    let scroll_y = m.mem[utils::SCROLL_Y_ADDR as int];
    let scroll_x = m.mem[utils::SCROLL_X_ADDR as int];
    let window_y = m.mem[utils::WINDOW_Y_ADDR as int];
    let window_x = vstd::wrapping::u8_specs::wrapping_sub(m.mem[utils::WINDOW_X_ADDR as int], 7);
    let using_window = lcd_control & 32 > 0 && window_y <= scanline;
    let unsigned = lcd_control & 16 > 0;
    let tile_data: u16 = if unsigned {
        0x8000
    } else {
        0x8800
    };
    let background_memory: u16 = if using_window {
        if lcd_control & 64 > 0 {
            0x9C00
        } else {
            0x9800
        }
    } else {
        if lcd_control & 8 > 0 {
            0x9C00
        } else {
            0x9800
        }
    };
    let y_pos: u8 = if using_window {
        (scanline - window_y) as u8
    } else {
        vstd::wrapping::u8_specs::wrapping_add(scroll_y, scanline)
    };
    let x_pos: u8 = if using_window && pixel >= window_x {
        (pixel - window_x) as u8
    } else {
        vstd::wrapping::u8_specs::wrapping_add(pixel, scroll_x)
    };
    let tile_row: u16 = ((y_pos / 8) * 32) as u16;
    let tile_col: u16 = (x_pos / 8) as u16;
    let tile_address: u16 = (background_memory + tile_row + tile_col) as u16;
    let tile_num = mmu::read_spec(m, tile_address as usize);
    let tile_location: u16 = if unsigned {
        (tile_data + tile_num * 16) as u16
    } else {
        // The identifier is a signed byte: shifting it by 128 turns the
        // -128..128 range into an offset into the 0x8800 region.
        (tile_data + ((tile_num + 128) % 256) * 16) as u16
    };
    let line: u16 = ((y_pos % 8) * 2) as u16;
    let data_1 = mmu::read_spec(m, (tile_location + line) as usize);
    let data_2 = mmu::read_spec(m, (tile_location + line + 1) as usize);
    let color_bit: u8 = (7 - (x_pos % 8)) as u8;
    let color_num: u8 = (((data_2 >> color_bit) & 1) << 1) | ((data_1 >> color_bit) & 1);
    shade_level(shade_of(m.mem[utils::COLOR_PALLETTE_ADDR as int], color_num))
}

/// What one background/window scanline render does to the pixel buffer:
/// the current scanline's row takes its 160 computed shades, every other
/// byte is untouched; a scanline at or past 144 leaves the buffer alone.
pub open spec fn render_tiles_spec(m: MmuModel, lcd_control: u8, screen: Seq<u8>) -> Seq<u8> {
    let y = m.mem[utils::CURRENT_SCANLINE_ADDR as int];
    if y < 144 {
        Seq::new(
            screen.len(),
            |i: int|
                if y * 480 <= i < y * 480 + 480 {
                    tile_pixel_level(m, lcd_control, ((i - y * 480) / 3) as u8)
                } else {
                    screen[i]
                },
        )
    } else {
        screen
    }
}

impl Cpu {
    /// Whether bit 7 of the LCD control register has the display running.
    pub fn is_lcd_enabled(&self) -> (r: bool)
        requires
            self.wf(),
        ensures
            r == (self@.mmu.mem[utils::LCD_CONTROL_ADDR as int] & 128 > 0),
    {
        let lcd_control = self.mmu.read_memory(&utils::LCD_CONTROL_ADDR);
        lcd_control & 128 > 0
    }

    /// Resolves a 2-bit colour index through the palette byte held at the
    /// given address.
    pub fn get_color(&self, color_num: &u8, pallette_addr: &usize) -> (shade: Shade)
        requires
            self.wf(),
            *color_num <= 3,
            *pallette_addr < utils::MEMORY_SIZE,
        ensures
            shade == shade_of(mmu::read_spec(self@.mmu, *pallette_addr), *color_num),
    {
        let pallette = self.mmu.read_memory(pallette_addr);

        let hi: u8 = if *color_num == 0 {
            1
        } else if *color_num == 1 {
            3
        } else if *color_num == 2 {
            5
        } else {
            7
        };
        let lo: u8 = if *color_num == 0 {
            0
        } else if *color_num == 1 {
            2
        } else if *color_num == 2 {
            4
        } else {
            6
        };

        let mut color = ((pallette >> hi) & 1) << 1;
        color = color | ((pallette >> lo) & 1);

        if color == 1 {
            Shade::LightGray
        } else if color == 2 {
            Shade::DarkGray
        } else if color == 3 {
            Shade::Black
        } else {
            Shade::White
        }
    }

    /// Stores one RGB pixel into the flat buffer; coordinates off the 160
    /// by 144 screen are dropped without touching the buffer.
    pub fn set_pixel(&mut self, x: usize, y: usize, r: u8, g: u8, b: u8)
        requires
            old(self).wf(),
        ensures
            final(self).wf(),
            final(self)@ == (CpuModel {
                screen: write_pixel_spec(old(self)@.screen, x as int, y as int, r, g, b),
                ..old(self)@
            }),
    {
        if x < utils::SCREEN_WIDTH && y < utils::SCREEN_HEIGHT {
            let base = (y * 160 + x) * 3;
            self.screen_data[base] = r;
            self.screen_data[base + 1] = g;
            self.screen_data[base + 2] = b;
        }
    }

    /// Refreshes the LCD status byte for the current scanline position,
    /// raising the LCD interrupt on a real mode change or an enabled
    /// coincidence, as `set_lcd_status_spec` describes.
    pub fn set_lcd_status(&mut self)
        requires
            old(self).wf(),
        ensures
            final(self).wf(),
            final(self)@ == set_lcd_status_spec(old(self)@),
    {
        let mut lcd_status = self.mmu.read_memory(&utils::LCD_STATUS_ADDR);

        if !self.is_lcd_enabled() {
            // With the display off the mode pins to vertical blank and
            // scanline counting restarts.
            self.scanline_counter = 456;
            self.mmu.reset_scanline_value();
            lcd_status = (lcd_status & 252) | 1;
            self.mmu.write_memory(&utils::LCD_STATUS_ADDR, lcd_status);
            proof {
                assert(self@ =~~= set_lcd_status_spec(old(self)@));
            }
            return ;
        }

        let current_scanline = self.mmu.read_memory(&utils::CURRENT_SCANLINE_ADDR);
        let current_mode = lcd_status & 0x3;

        let mut mode: u8 = 0;
        let mut requested_interrupt = false;

        if current_scanline >= 144 {
            // Vertical blank.
            mode = 1;
            lcd_status = (lcd_status & 252) | 1;
            requested_interrupt = lcd_status & 16 > 0;
        } else if self.scanline_counter > 376 {
            // The first 80 cycles of the scanline search sprite attributes.
            mode = 2;
            lcd_status = (lcd_status & 252) | 2;
            requested_interrupt = lcd_status & 32 > 0;
        } else if self.scanline_counter > 204 {
            // The next 172 cycles transfer data to the display driver.
            mode = 3;
            lcd_status = (lcd_status & 252) | 3;
        } else {
            // The rest of the scanline is horizontal blank.
            mode = 0;
            proof {
                let s = lcd_status;
                assert((s & 252) | 0 == s & 252) by (bit_vector);
            }
            lcd_status = lcd_status & 252;
            requested_interrupt = lcd_status & 8 > 0;
        }

        // Raise the LCD interrupt only on an actual mode change, never on
        // every poll.
        if requested_interrupt && mode != current_mode {
            self.request_interrupt(1);
        }

        // Coincidence comparison against the compare register.
        if current_scanline == self.mmu.read_memory(&utils::SCANLINE_COMPARE_ADDR) {
            lcd_status = lcd_status | 4;
            if lcd_status & 64 > 0 {
                self.request_interrupt(1);
            }
        } else {
            lcd_status = lcd_status & 251;
        }

        self.mmu.write_memory(&utils::LCD_STATUS_ADDR, lcd_status);

        proof {
            let r = old(self)@.mmu.mem[utils::INTERRUPT_REQUEST_ADDR as int];
            assert((r | 2) | 2 == r | 2) by (bit_vector);
            assert(self@ =~~= set_lcd_status_spec(old(self)@));
        }
    }

    /// Renders the background (and, where enabled, the window) of the
    /// current scanline into the pixel buffer.
    #[verifier::loop_isolation(false)]
    #[verifier::rlimit(50)]
    pub fn render_tiles(&mut self, lcd_control: &u8)
        requires
            old(self).wf(),
        ensures
            final(self).wf(),
            final(self)@ == (CpuModel {
                screen: render_tiles_spec(old(self)@.mmu, *lcd_control, old(self)@.screen),
                ..old(self)@
            }),
    {
        let lcd = *lcd_control;
        let scanline = self.mmu.read_memory(&utils::CURRENT_SCANLINE_ADDR);
        let scroll_y = self.mmu.read_memory(&utils::SCROLL_Y_ADDR);
        let scroll_x = self.mmu.read_memory(&utils::SCROLL_X_ADDR);
        let window_y = self.mmu.read_memory(&utils::WINDOW_Y_ADDR);
        // The stored window X is offset by 7 screen pixels.
        let window_x = self.mmu.read_memory(&utils::WINDOW_X_ADDR).wrapping_sub(7);

        // The window participates only when enabled and the scanline has
        // reached its top.
        let mut using_window = false;
        if lcd & 32 > 0 {
            if window_y <= scanline {
                using_window = true;
            }
        }

        // Bit 4 selects the tile data region; the lower region addresses
        // tiles with signed identifiers.
        let unsigned = lcd & 16 > 0;
        let tile_data: u16 = if unsigned {
            0x8000
        } else {
            0x8800
        };

        // Bit 6 (window) or bit 3 (background) selects the tile map.
        let background_memory: u16 = if using_window {
            if lcd & 64 > 0 {
                0x9C00
            } else {
                0x9800
            }
        } else {
            if lcd & 8 > 0 {
                0x9C00
            } else {
                0x9800
            }
        };

        // The vertical position inside the 256-pixel tile plane.
        let y_pos: u8 = if using_window {
            scanline - window_y
        } else {
            scroll_y.wrapping_add(scanline)
        };
        let tile_row: u16 = ((y_pos / 8) as u16) * 32;
        let line: u16 = ((y_pos % 8) as u16) * 2;

        let ghost m0 = self@.mmu;
        let ghost screen0 = self@.screen;

        let mut pixel: u8 = 0;
        while pixel < 160
            invariant
                pixel <= 160,
                self@ == (CpuModel { screen: self.screen_data@, ..old(self)@ }),
                self.screen_data@.len() == utils::SCREEN_DATA_SIZE,
                scanline < 144 ==> forall|i: int|
                    0 <= i < utils::SCREEN_DATA_SIZE ==> self.screen_data@[i] == (if scanline * 480
                        <= i < scanline * 480 + 3 * pixel {
                        tile_pixel_level(m0, lcd, ((i - scanline * 480) / 3) as u8)
                    } else {
                        screen0[i]
                    }),
                scanline >= 144 ==> self.screen_data@ == screen0,
            decreases 160 - pixel,
        {
            // Place the pixel horizontally in the tile plane.
            let x_pos: u8 = if using_window && pixel >= window_x {
                pixel - window_x
            } else {
                pixel.wrapping_add(scroll_x)
            };
            let tile_col: u16 = (x_pos / 8) as u16;

            // Look the tile identifier up in the selected tile map.
            let tile_address: u16 = background_memory + tile_row + tile_col;
            let tile_num = self.mmu.read_memory(&(tile_address as usize));

            let tile_location: u16 = if unsigned {
                tile_data + (tile_num as u16) * 16
            } else {
                tile_data + (((tile_num as u16) + 128) % 256) * 16
            };

            // Each tile line is two bytes of bit-planes.
            let data_1 = self.mmu.read_memory(&((tile_location + line) as usize));
            let data_2 = self.mmu.read_memory(&((tile_location + line + 1) as usize));

            // Pixel 0 sits in bit 7 of the two planes.
            let color_bit: u8 = 7 - (x_pos % 8);
            let color_num: u8 = (((data_2 >> color_bit) & 1) << 1) | ((data_1 >> color_bit) & 1);
            proof {
                let d1 = data_1;
                let d2 = data_2;
                let b = color_bit;
                assert(((((d2 >> b) & 1) << 1) | ((d1 >> b) & 1)) <= 3) by (bit_vector);
            }

            let color = self.get_color(&color_num, &utils::COLOR_PALLETTE_ADDR);
            let level: u8 = match color {
                Shade::White => 255,
                Shade::LightGray => 0x77,
                Shade::DarkGray => 0xCC,
                Shade::Black => 0,
            };

            proof {
                assert(level == tile_pixel_level(m0, lcd, pixel)) by {
                    reveal(tile_pixel_level);
                };
            }

            self.set_pixel(pixel as usize, scanline as usize, level, level, level);

            pixel = pixel + 1;
        }

        proof {
            assert(self.screen_data@ =~= render_tiles_spec(m0, lcd, screen0));
            assert(self@ =~~= (CpuModel {
                screen: render_tiles_spec(old(self)@.mmu, *lcd_control, old(self)@.screen),
                ..old(self)@
            }));
        }
    }

    /// Renders every non-background-priority sprite that crosses the
    /// current scanline into the pixel buffer, in table order.
    #[verifier::loop_isolation(false)]
    #[verifier::rlimit(50)]
    pub fn render_sprites(&mut self, lcd_control: &u8)
        requires
            old(self).wf(),
        ensures
            final(self).wf(),
            final(self)@ == (CpuModel {
                screen: render_sprites_spec(old(self)@.mmu, *lcd_control, old(self)@.screen, 40),
                ..old(self)@
            }),
    {
        let lcd = *lcd_control;
        // Bit 2 selects 8x16 sprites over 8x8 ones.
        let height: u8 = if lcd & 4 > 0 {
            16
        } else {
            8
        };
        let current_scanline = self.mmu.read_memory(&utils::CURRENT_SCANLINE_ADDR);

        let ghost m0 = self@.mmu;
        let ghost screen0 = self@.screen;

        let mut sprite: usize = 0;
        while sprite < 40
            invariant
                sprite <= 40,
                self@ == (CpuModel { screen: self.screen_data@, ..old(self)@ }),
                self.screen_data@.len() == utils::SCREEN_DATA_SIZE,
                self.screen_data@ == render_sprites_spec(m0, lcd, screen0, sprite as int),
            decreases 40 - sprite,
        {
            // Four attribute bytes per sprite: position, tile, and flags.
            let index = sprite * 4;
            let y_pos = self.mmu.read_memory(
                &(utils::SPRITE_ATTRIBUTE_ADDR + index),
            ).wrapping_sub(16);
            let x_pos = self.mmu.read_memory(
                &(utils::SPRITE_ATTRIBUTE_ADDR + index + 1),
            ).wrapping_sub(8);
            let tile_location = self.mmu.read_memory(&(utils::SPRITE_ATTRIBUTE_ADDR + index + 2));
            let attributes = self.mmu.read_memory(&(utils::SPRITE_ATTRIBUTE_ADDR + index + 3));

            let y_flip = attributes & 64 > 0;
            let x_flip = attributes & 32 > 0;
            // Bit 7 yields the sprite's pixels to the background.
            let background_priority = attributes & 128 > 0;

            // Does the sprite's vertical extent cross the scanline, and do
            // its pixels go in front of the background?
            if !background_priority && current_scanline >= y_pos && (current_scanline as u16) < (
            y_pos as u16) + (height as u16) {
                let mut line: u8 = current_scanline - y_pos;
                if y_flip {
                    // Vertically flipped sprites read their rows backwards.
                    line = height - 1 - line;
                }

                let tile_data_address: u16 = 0x8000 + (tile_location as u16) * 16 + (line as u16)
                    * 2;
                let data_1 = self.mmu.read_memory(&(tile_data_address as usize));
                let data_2 = self.mmu.read_memory(&((tile_data_address + 1) as usize));

                let ghost screen_s = self.screen_data@;

                let mut tile_pixel: u8 = 0;
                while tile_pixel < 8
                    invariant
                        tile_pixel <= 8,
                        self@ == (CpuModel { screen: self.screen_data@, ..old(self)@ }),
                        self.screen_data@.len() == utils::SCREEN_DATA_SIZE,
                        self.screen_data@ == sprite_pixels(
                            m0,
                            lcd,
                            screen_s,
                            sprite as int,
                            tile_pixel as int,
                        ),
                    decreases 8 - tile_pixel,
                {
                    // Pixel 0 sits in bit 7; horizontally flipped sprites
                    // read their bits the other way round.
                    let color_bit: u8 = if x_flip {
                        tile_pixel
                    } else {
                        7 - tile_pixel
                    };
                    let color_num: u8 = (((data_2 >> color_bit) & 1) << 1) | ((data_1 >> color_bit)
                        & 1);
                    proof {
                        let d1 = data_1;
                        let d2 = data_2;
                        let b = color_bit;
                        assert(((((d2 >> b) & 1) << 1) | ((d1 >> b) & 1)) <= 3) by (bit_vector);
                    }

                    let color = self.get_color(&color_num, &utils::COLOR_PALLETTE_ADDR);
                    let level: u8 = match color {
                        Shade::White => 255,
                        Shade::LightGray => 0x77,
                        Shade::DarkGray => 0xCC,
                        Shade::Black => 0,
                    };
                    proof {
                        assert(level == sprite_pixel_level(
                            m0,
                            lcd,
                            sprite as int,
                            tile_pixel as int,
                        )) by {
                            reveal(sprite_pixel_level);
                        };
                    }

                    let pixel = x_pos.wrapping_add(tile_pixel);
                    self.set_pixel(pixel as usize, current_scanline as usize, level, level, level);

                    tile_pixel = tile_pixel + 1;
                }
            }
            sprite = sprite + 1;
        }

        proof {
            assert(self@ =~~= (CpuModel {
                screen: render_sprites_spec(old(self)@.mmu, *lcd_control, old(self)@.screen, 40),
                ..old(self)@
            }));
        }
    }

    /// Renders the completed scanline: the background and window where bit
    /// 0 of the control byte enables them, then the sprites where bit 1
    /// does.
    pub fn draw_scanline(&mut self)
        requires
            old(self).wf(),
        ensures
            final(self).wf(),
            final(self)@ == draw_scanline_spec(old(self)@),
    {
        let lcd_control = self.mmu.read_memory(&utils::LCD_CONTROL_ADDR);

        if lcd_control & 1 > 0 {
            self.render_tiles(&lcd_control);
        }
        if lcd_control & 2 > 0 {
            self.render_sprites(&lcd_control);
        }
        proof {
            assert(self@ =~~= draw_scanline_spec(old(self)@));
        }
    }

    /// Advances the graphics pipeline by the cycles just consumed: the
    /// status byte is refreshed, and each completed 456-cycle scanline
    /// either renders, enters vertical blank (raising the V-Blank
    /// interrupt at scanline 144), or wraps past 153 back to 0.
    pub fn update_graphics(&mut self, cycles: &usize)
        requires
            old(self).wf(),
            *cycles <= 0xFFFF,
        ensures
            final(self).wf(),
            final(self)@ == update_graphics_spec(old(self)@, *cycles),
    {
        self.set_lcd_status();

        if self.is_lcd_enabled() {
            let c = *cycles as u16;
            self.scanline_counter = if self.scanline_counter >= c {
                self.scanline_counter - c
            } else {
                0
            };
        } else {
            // With the display off nothing advances.
            return ;
        }

        if self.scanline_counter == 0 {
            // The scanline is complete: move to the next one.
            self.mmu.increment_scanline_value();
            let current_line = self.mmu.read_memory(&utils::CURRENT_SCANLINE_ADDR);

            self.scanline_counter = 456;

            if current_line == 144 {
                // Entering vertical blank.
                self.request_interrupt(0);
            } else if current_line > 153 {
                // Past the last blank scanline: wrap back to the top.
                self.mmu.reset_scanline_value();
            } else {
                self.draw_scanline();
            }
        }
        proof {
            assert(self@ =~~= update_graphics_spec(old(self)@, *cycles));
        }
    }
}

/// The height of every sprite, selected by bit 2 of the control byte.
pub open spec fn sprite_height_spec(lcd_control: u8) -> u8 {
    if lcd_control & 4 > 0 {
        16
    } else {
        8
    }
}

/// A sprite's attribute bytes: screen position (stored offset by 16 and
/// 8), tile identifier, and flags.
pub open spec fn sprite_y(m: MmuModel, s: int) -> u8 {
    vstd::wrapping::u8_specs::wrapping_sub(m.mem[utils::SPRITE_ATTRIBUTE_ADDR + s * 4], 16)
}

pub open spec fn sprite_x(m: MmuModel, s: int) -> u8 {
    vstd::wrapping::u8_specs::wrapping_sub(m.mem[utils::SPRITE_ATTRIBUTE_ADDR + s * 4 + 1], 8)
}

pub open spec fn sprite_tile(m: MmuModel, s: int) -> u8 {
    m.mem[utils::SPRITE_ATTRIBUTE_ADDR + s * 4 + 2]
}

pub open spec fn sprite_attributes(m: MmuModel, s: int) -> u8 {
    m.mem[utils::SPRITE_ATTRIBUTE_ADDR + s * 4 + 3]
}

/// Whether a sprite's vertical extent crosses the current scanline.
pub open spec fn sprite_visible(m: MmuModel, lcd_control: u8, s: int) -> bool {
    let scanline = m.mem[utils::CURRENT_SCANLINE_ADDR as int];
    let y = sprite_y(m, s);
    scanline >= y && (scanline as int) < y + sprite_height_spec(lcd_control)
}

/// Whether a sprite's pixels are written: it must cross the scanline and
/// not carry the background-priority attribute (bit 7).
pub open spec fn sprite_drawn(m: MmuModel, lcd_control: u8, s: int) -> bool {
    sprite_visible(m, lcd_control, s) && sprite_attributes(m, s) & 128 == 0
}

/// The shade byte one visible sprite produces at one of its eight
/// horizontal pixels, honouring the two flip flags.
#[verifier::opaque]
pub open spec fn sprite_pixel_level(m: MmuModel, lcd_control: u8, s: int, px: int) -> u8 {
    let scanline = m.mem[utils::CURRENT_SCANLINE_ADDR as int];
    let attributes = sprite_attributes(m, s);
    let y_flip = attributes & 64 > 0;
    let x_flip = attributes & 32 > 0;
    let height = sprite_height_spec(lcd_control);
    let line0 = scanline - sprite_y(m, s);
    let line: int = if y_flip {
        height - 1 - line0
    } else {
        line0
    };
    let tile_data_address: u16 = (0x8000 + sprite_tile(m, s) * 16 + line * 2) as u16;
    let data_1 = mmu::read_spec(m, tile_data_address as usize);
    let data_2 = mmu::read_spec(m, (tile_data_address + 1) as usize);
    let color_bit: u8 = if x_flip {
        px as u8
    } else {
        (7 - px) as u8
    };
    let color_num: u8 = (((data_2 >> color_bit) & 1) << 1) | ((data_1 >> color_bit) & 1);
    shade_level(shade_of(m.mem[utils::COLOR_PALLETTE_ADDR as int], color_num))
}

/// The pixel buffer after the first `n` of one sprite's eight pixels have
/// been written onto it.
pub open spec fn sprite_pixels(
    m: MmuModel,
    lcd_control: u8,
    screen: Seq<u8>,
    s: int,
    n: int,
) -> Seq<u8>
    decreases n,
{
    if n <= 0 {
        screen
    } else {
        let prev = sprite_pixels(m, lcd_control, screen, s, n - 1);
        let px = n - 1;
        let x = vstd::wrapping::u8_specs::wrapping_add(sprite_x(m, s), px as u8);
        let scanline = m.mem[utils::CURRENT_SCANLINE_ADDR as int];
        let level = sprite_pixel_level(m, lcd_control, s, px);
        write_pixel_spec(prev, x as int, scanline as int, level, level, level)
    }
}

/// The pixel buffer after the first `n` sprites of the attribute table
/// have been considered: each one that crosses the scanline without
/// background priority writes its eight pixels in order, later sprites
/// over earlier ones.
pub open spec fn render_sprites_spec(
    m: MmuModel,
    lcd_control: u8,
    screen: Seq<u8>,
    n: int,
) -> Seq<u8>
    decreases n,
{
    if n <= 0 {
        screen
    } else {
        let prev = render_sprites_spec(m, lcd_control, screen, n - 1);
        if sprite_drawn(m, lcd_control, n - 1) {
            sprite_pixels(m, lcd_control, prev, n - 1, 8)
        } else {
            prev
        }
    }
}

/// What one completed scanline draws: background/window tiles where
/// enabled, then sprites where enabled.
pub open spec fn draw_scanline_spec(c: CpuModel) -> CpuModel {
    let lcd_control = c.mmu.mem[utils::LCD_CONTROL_ADDR as int];
    let s1 = if lcd_control & 1 > 0 {
        render_tiles_spec(c.mmu, lcd_control, c.screen)
    } else {
        c.screen
    };
    let s2 = if lcd_control & 2 > 0 {
        render_sprites_spec(c.mmu, lcd_control, s1, 40)
    } else {
        s1
    };
    CpuModel { screen: s2, ..c }
}

/// One graphics advance: the status poll happens first; while the LCD
/// runs, the scanline counter burns the cycles, and on reaching zero the
/// scanline index moves on - into rendering, into vertical blank at 144,
/// or wrapping to 0 past 153.
pub open spec fn update_graphics_spec(c: CpuModel, cycles: usize) -> CpuModel {
    let c1 = set_lcd_status_spec(c);
    if c1.mmu.mem[utils::LCD_CONTROL_ADDR as int] & 128 > 0 {
        let counter = if c1.scanline_counter >= cycles {
            (c1.scanline_counter - cycles) as u16
        } else {
            0
        };
        if counter == 0 {
            let line = vstd::wrapping::u8_specs::wrapping_add(
                c1.mmu.mem[utils::CURRENT_SCANLINE_ADDR as int],
                1,
            );
            let c2 = CpuModel {
                scanline_counter: 456,
                mmu: MmuModel {
                    mem: c1.mmu.mem.update(utils::CURRENT_SCANLINE_ADDR as int, line),
                    ..c1.mmu
                },
                ..c1
            };
            if line == 144 {
                CpuModel {
                    mmu: MmuModel {
                        mem: c2.mmu.mem.update(
                            utils::INTERRUPT_REQUEST_ADDR as int,
                            c2.mmu.mem[utils::INTERRUPT_REQUEST_ADDR as int] | 1,
                        ),
                        ..c2.mmu
                    },
                    ..c2
                }
            } else if line > 153 {
                CpuModel {
                    mmu: MmuModel {
                        mem: c2.mmu.mem.update(utils::CURRENT_SCANLINE_ADDR as int, 0u8),
                        ..c2.mmu
                    },
                    ..c2
                }
            } else {
                draw_scanline_spec(c2)
            }
        } else {
            CpuModel { scanline_counter: counter, ..c1 }
        }
    } else {
        c1
    }
}

/// Whether a byte is one of the four palette-derived grayscale levels.
pub open spec fn grayscale_byte(b: u8) -> bool {
    b == 0 || b == 0x77 || b == 0xCC || b == 255
}

/// Background and window rendering writes only the four grayscale levels.
pub proof fn lemma_tiles_grayscale(m: MmuModel, lcd_control: u8, screen: Seq<u8>)
    requires
        screen.len() == utils::SCREEN_DATA_SIZE,
        forall|i: int| 0 <= i < screen.len() ==> grayscale_byte(#[trigger] screen[i]),
    ensures
        forall|i: int|
            0 <= i < render_tiles_spec(m, lcd_control, screen).len() ==> grayscale_byte(
                #[trigger] render_tiles_spec(m, lcd_control, screen)[i],
            ),
{
    reveal(tile_pixel_level);
}

/// One sprite's pixel writes keep the buffer grayscale.
proof fn lemma_sprite_pixels_grayscale(
    m: MmuModel,
    lcd_control: u8,
    screen: Seq<u8>,
    s: int,
    n: int,
)
    requires
        screen.len() == utils::SCREEN_DATA_SIZE,
        forall|i: int| 0 <= i < screen.len() ==> grayscale_byte(#[trigger] screen[i]),
    ensures
        sprite_pixels(m, lcd_control, screen, s, n).len() == screen.len(),
        forall|i: int|
            0 <= i < sprite_pixels(m, lcd_control, screen, s, n).len() ==> grayscale_byte(
                #[trigger] sprite_pixels(m, lcd_control, screen, s, n)[i],
            ),
    decreases n,
{
    if n > 0 {
        lemma_sprite_pixels_grayscale(m, lcd_control, screen, s, n - 1);
        let prev = sprite_pixels(m, lcd_control, screen, s, n - 1);
        let level = sprite_pixel_level(m, lcd_control, s, n - 1);
        assert(grayscale_byte(level)) by {
            reveal(sprite_pixel_level);
        };
        let res = sprite_pixels(m, lcd_control, screen, s, n);
        assert forall|i: int| 0 <= i < res.len() implies grayscale_byte(res[i]) by {
            assert(res[i] == level || res[i] == prev[i]);
        };
    }
}

/// Sprite rendering writes only the four grayscale levels.
pub proof fn lemma_sprites_grayscale(m: MmuModel, lcd_control: u8, screen: Seq<u8>, n: int)
    requires
        screen.len() == utils::SCREEN_DATA_SIZE,
        forall|i: int| 0 <= i < screen.len() ==> grayscale_byte(#[trigger] screen[i]),
    ensures
        render_sprites_spec(m, lcd_control, screen, n).len() == screen.len(),
        forall|i: int|
            0 <= i < render_sprites_spec(m, lcd_control, screen, n).len() ==> grayscale_byte(
                #[trigger] render_sprites_spec(m, lcd_control, screen, n)[i],
            ),
    decreases n,
{
    if n > 0 {
        lemma_sprites_grayscale(m, lcd_control, screen, n - 1);
        if sprite_drawn(m, lcd_control, n - 1) {
            lemma_sprite_pixels_grayscale(
                m,
                lcd_control,
                render_sprites_spec(m, lcd_control, screen, n - 1),
                n - 1,
                8,
            );
        }
    }
}

/// A rendered scanline leaves every pixel byte at one of the four
/// palette-derived grayscale levels: starting from a grayscale buffer (as
/// the cleared power-on buffer is), rendering can produce nothing else.
pub proof fn lemma_scanline_render_grayscale(c: CpuModel)
    requires
        c.screen.len() == utils::SCREEN_DATA_SIZE,
        forall|i: int| 0 <= i < c.screen.len() ==> grayscale_byte(#[trigger] c.screen[i]),
    ensures
        forall|i: int|
            0 <= i < draw_scanline_spec(c).screen.len() ==> grayscale_byte(
                #[trigger] draw_scanline_spec(c).screen[i],
            ),
{
    let lcd_control = c.mmu.mem[utils::LCD_CONTROL_ADDR as int];
    let s1 = if lcd_control & 1 > 0 {
        render_tiles_spec(c.mmu, lcd_control, c.screen)
    } else {
        c.screen
    };
    if lcd_control & 1 > 0 {
        lemma_tiles_grayscale(c.mmu, lcd_control, c.screen);
    }
    if lcd_control & 2 > 0 {
        assert(s1.len() == utils::SCREEN_DATA_SIZE);
        lemma_sprites_grayscale(c.mmu, lcd_control, s1, 40);
    }
}

/// Pixel writes for coordinates outside the visible screen never mutate
/// the pixel buffer.
pub proof fn lemma_offscreen_pixel_unchanged(screen: Seq<u8>, x: int, y: int, r: u8, g: u8, b: u8)
    requires
        !(0 <= x < 160 && 0 <= y < 144),
    ensures
        write_pixel_spec(screen, x, y, r, g, b) == screen,
{
}

} // verus!
