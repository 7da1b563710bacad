use gb_core::cpu::Cpu;
use gb_core::game::Game;
use gb_core::gpu::Shade;

#[test]
fn palette_resolves_all_four_shades() {
    let mut cpu = Cpu::new(Game::new());
    // Shade i stored in bits 2i+1..2i: index 0 white, 1 light, 2 dark,
    // 3 black.
    cpu.mmu.memory[0xFF47] = 0b11100100;
    assert_eq!(cpu.get_color(&0, &0xFF47), Shade::White);
    assert_eq!(cpu.get_color(&1, &0xFF47), Shade::LightGray);
    assert_eq!(cpu.get_color(&2, &0xFF47), Shade::DarkGray);
    assert_eq!(cpu.get_color(&3, &0xFF47), Shade::Black);
}

#[test]
fn set_pixel_writes_three_channels() {
    let mut cpu = Cpu::new(Game::new());
    cpu.set_pixel(2, 1, 10, 20, 30);
    let base = (1 * 160 + 2) * 3;
    assert_eq!(cpu.screen_data[base], 10);
    assert_eq!(cpu.screen_data[base + 1], 20);
    assert_eq!(cpu.screen_data[base + 2], 30);
}

#[test]
fn offscreen_pixels_never_mutate_buffer() {
    let mut cpu = Cpu::new(Game::new());
    cpu.screen_data[0] = 9;
    let before = cpu.screen_data.clone();
    cpu.set_pixel(160, 0, 1, 2, 3);
    cpu.set_pixel(0, 144, 1, 2, 3);
    cpu.set_pixel(100000, 100000, 1, 2, 3);
    assert_eq!(cpu.screen_data, before);
}

#[test]
fn offscreen_sprite_leaves_buffer_unchanged() {
    let mut cpu = Cpu::new(Game::new());
    // Scanline 10; sprite 0 crosses it vertically but its X position
    // (stored 0, offset by 8) puts all eight pixels at 248..=255, off the
    // 160-wide screen.
    cpu.mmu.memory[0xFF44] = 10;
    cpu.mmu.memory[0xFE00] = 26;
    cpu.mmu.memory[0xFE01] = 0;
    cpu.screen_data[123] = 77;
    let before = cpu.screen_data.clone();

    cpu.render_sprites(&0b10);

    assert_eq!(cpu.screen_data, before);
}

#[test]
fn onscreen_sprite_writes_its_row() {
    let mut cpu = Cpu::new(Game::new());
    cpu.mmu.memory[0xFF44] = 10;
    // Stored position 26/16 puts the sprite at y 10, x 8.
    cpu.mmu.memory[0xFE00] = 26;
    cpu.mmu.memory[0xFE01] = 16;
    // Tile data is all zero: colour index 0, palette 0xFC maps it to
    // white.
    cpu.render_sprites(&0b10);

    for x in 8..16usize {
        let base = (10 * 160 + x) * 3;
        assert_eq!(cpu.screen_data[base], 255);
        assert_eq!(cpu.screen_data[base + 1], 255);
        assert_eq!(cpu.screen_data[base + 2], 255);
    }
    // The pixel left of the sprite is untouched.
    assert_eq!(cpu.screen_data[(10 * 160 + 7) * 3], 0);
}

#[test]
fn tiles_render_light_gray_row() {
    let mut cpu = Cpu::new(Game::new());
    cpu.mmu.memory[0xFF44] = 5;
    // Tile map all zero selects tile 0 at 0x8000 (control 0x91 picks the
    // unsigned region). Row 5 of the tile reads bytes 10 and 11; a low
    // bit-plane of 0xFF makes every pixel colour index 1, which the
    // identity palette written here maps to light gray.
    cpu.mmu.memory[0xFF47] = 0b11100100;
    cpu.mmu.memory[0x8000 + 10] = 0xFF;

    cpu.render_tiles(&0x91);

    for x in 0..160usize {
        let base = (5 * 160 + x) * 3;
        assert_eq!(cpu.screen_data[base], 0x77);
        assert_eq!(cpu.screen_data[base + 1], 0x77);
        assert_eq!(cpu.screen_data[base + 2], 0x77);
    }
    // Other rows stay black (zero).
    assert_eq!(cpu.screen_data[(4 * 160) * 3], 0);
    assert_eq!(cpu.screen_data[(6 * 160) * 3], 0);
}

#[test]
fn tiles_skip_rows_in_vertical_blank() {
    let mut cpu = Cpu::new(Game::new());
    cpu.mmu.memory[0xFF44] = 150;
    let before = cpu.screen_data.clone();
    cpu.render_tiles(&0x91);
    assert_eq!(cpu.screen_data, before);
}

#[test]
fn lcd_disabled_pins_mode_to_vertical_blank() {
    let mut cpu = Cpu::new(Game::new());
    cpu.mmu.memory[0xFF40] = 0;
    cpu.mmu.memory[0xFF44] = 77;
    cpu.scanline_counter = 100;

    cpu.set_lcd_status();

    assert_eq!(cpu.mmu.read_memory(&0xFF41) & 0b11, 1);
    assert_eq!(cpu.mmu.read_memory(&0xFF44), 0);
    assert_eq!(cpu.scanline_counter, 456);
}

#[test]
fn lcd_mode_follows_scanline_budget() {
    let mut cpu = Cpu::new(Game::new());
    // Avoid the coincidence flag muddying the low bits: compare register
    // differs from the scanline.
    cpu.mmu.memory[0xFF45] = 200;

    // First 80 cycles of the 456: searching sprite attributes.
    cpu.scanline_counter = 456;
    cpu.set_lcd_status();
    assert_eq!(cpu.mmu.read_memory(&0xFF41) & 0b11, 2);

    // Next 172: transferring data.
    cpu.scanline_counter = 300;
    cpu.set_lcd_status();
    assert_eq!(cpu.mmu.read_memory(&0xFF41) & 0b11, 3);

    // The rest: horizontal blank.
    cpu.scanline_counter = 100;
    cpu.set_lcd_status();
    assert_eq!(cpu.mmu.read_memory(&0xFF41) & 0b11, 0);

    // Scanlines 144 and beyond: vertical blank.
    cpu.mmu.memory[0xFF44] = 145;
    cpu.set_lcd_status();
    assert_eq!(cpu.mmu.read_memory(&0xFF41) & 0b11, 1);
}

#[test]
fn lcd_mode_boundaries_split_80_and_172_cycles() {
    let mut cpu = Cpu::new(Game::new());
    cpu.mmu.memory[0xFF45] = 200;

    // Exactly 80 cycles consumed (counter 376): sprite search is over.
    cpu.scanline_counter = 377;
    cpu.set_lcd_status();
    assert_eq!(cpu.mmu.read_memory(&0xFF41) & 0b11, 2);
    cpu.scanline_counter = 376;
    cpu.set_lcd_status();
    assert_eq!(cpu.mmu.read_memory(&0xFF41) & 0b11, 3);

    // Exactly 80 + 172 cycles consumed (counter 204): transfer is over.
    cpu.scanline_counter = 205;
    cpu.set_lcd_status();
    assert_eq!(cpu.mmu.read_memory(&0xFF41) & 0b11, 3);
    cpu.scanline_counter = 204;
    cpu.set_lcd_status();
    assert_eq!(cpu.mmu.read_memory(&0xFF41) & 0b11, 0);
}

#[test]
fn coincidence_flag_follows_compare_register() {
    let mut cpu = Cpu::new(Game::new());
    // Scanline 0 equals the compare register 0: bit 2 set.
    cpu.set_lcd_status();
    assert_eq!(cpu.mmu.read_memory(&0xFF41) & 0b100, 0b100);

    cpu.mmu.memory[0xFF45] = 9;
    cpu.set_lcd_status();
    assert_eq!(cpu.mmu.read_memory(&0xFF41) & 0b100, 0);
}

#[test]
fn coincidence_interrupt_when_enabled() {
    let mut cpu = Cpu::new(Game::new());
    // Bit 6 arms the coincidence interrupt; scanline and compare are both
    // 0.
    cpu.mmu.memory[0xFF41] = 0b0100_0000;
    cpu.set_lcd_status();
    assert_eq!(cpu.mmu.read_memory(&0xFF0F) & 0b10, 0b10);
}

#[test]
fn scanline_advances_every_456_cycles() {
    let mut cpu = Cpu::new(Game::new());
    cpu.update_graphics(&456usize);
    assert_eq!(cpu.mmu.read_memory(&0xFF44), 1);
    assert_eq!(cpu.scanline_counter, 456);

    cpu.update_graphics(&455usize);
    assert_eq!(cpu.mmu.read_memory(&0xFF44), 1);
    cpu.update_graphics(&1usize);
    assert_eq!(cpu.mmu.read_memory(&0xFF44), 2);
}

#[test]
fn vblank_interrupt_on_scanline_144() {
    let mut cpu = Cpu::new(Game::new());
    cpu.mmu.memory[0xFF44] = 143;
    cpu.scanline_counter = 4;
    cpu.update_graphics(&4usize);
    assert_eq!(cpu.mmu.read_memory(&0xFF44), 144);
    assert_eq!(cpu.mmu.read_memory(&0xFF0F) & 1, 1);
}

#[test]
fn scanline_wraps_past_153() {
    let mut cpu = Cpu::new(Game::new());
    cpu.mmu.memory[0xFF44] = 153;
    cpu.scanline_counter = 4;
    cpu.update_graphics(&4usize);
    assert_eq!(cpu.mmu.read_memory(&0xFF44), 0);
}

#[test]
fn disabled_lcd_freezes_graphics() {
    let mut cpu = Cpu::new(Game::new());
    cpu.mmu.memory[0xFF40] = 0;
    cpu.update_graphics(&456usize);
    // The scanline counter was reset by the status poll and nothing
    // advanced.
    assert_eq!(cpu.mmu.read_memory(&0xFF44), 0);
    assert_eq!(cpu.scanline_counter, 456);
}

#[test]
fn sprite_horizontal_flip_mirrors_pixels() {
    // Bit 7 of the data plane is pixel 0 when unflipped and pixel 7 when
    // flipped; an identity palette keeps index 1 visible as light gray.
    let mut plain = Cpu::new(Game::new());
    plain.mmu.memory[0xFF44] = 10;
    plain.mmu.memory[0xFF47] = 0b11100100;
    plain.mmu.memory[0xFE00] = 26;
    plain.mmu.memory[0xFE01] = 16;
    plain.mmu.memory[0x8000] = 0b1000_0000;
    plain.render_sprites(&0b10);
    assert_eq!(plain.screen_data[(10 * 160 + 8) * 3], 0x77);
    assert_eq!(plain.screen_data[(10 * 160 + 15) * 3], 255);

    let mut flipped = Cpu::new(Game::new());
    flipped.mmu.memory[0xFF44] = 10;
    flipped.mmu.memory[0xFF47] = 0b11100100;
    flipped.mmu.memory[0xFE00] = 26;
    flipped.mmu.memory[0xFE01] = 16;
    // Bit 5 of the attributes flips horizontally.
    flipped.mmu.memory[0xFE03] = 0b0010_0000;
    flipped.mmu.memory[0x8000] = 0b1000_0000;
    flipped.render_sprites(&0b10);
    assert_eq!(flipped.screen_data[(10 * 160 + 8) * 3], 255);
    assert_eq!(flipped.screen_data[(10 * 160 + 15) * 3], 0x77);
}

#[test]
fn sprite_vertical_flip_reads_rows_backwards() {
    let mut cpu = Cpu::new(Game::new());
    cpu.mmu.memory[0xFF44] = 10;
    cpu.mmu.memory[0xFF47] = 0b11100100;
    cpu.mmu.memory[0xFE00] = 26;
    cpu.mmu.memory[0xFE01] = 16;
    // Bit 6 of the attributes flips vertically: on the sprite's first
    // visible row an 8-pixel sprite reads tile row 7 (bytes 14 and 15).
    cpu.mmu.memory[0xFE02] = 0;
    cpu.mmu.memory[0xFE03] = 0b0100_0000;
    cpu.mmu.memory[0x8000 + 14] = 0xFF;

    cpu.render_sprites(&0b10);

    for x in 8..16usize {
        assert_eq!(cpu.screen_data[(10 * 160 + x) * 3], 0x77);
    }
}

#[test]
fn signed_tile_addressing_starts_at_0x9000() {
    let mut cpu = Cpu::new(Game::new());
    cpu.mmu.memory[0xFF44] = 0;
    cpu.mmu.memory[0xFF45] = 200;
    cpu.mmu.memory[0xFF47] = 0b11100100;
    // Control without bit 4 selects the signed region: identifier 0 sits
    // in the middle of it, at 0x9000.
    cpu.mmu.memory[0x9000] = 0xFF;
    cpu.render_tiles(&0b1000_0001);
    assert_eq!(cpu.screen_data[0], 0x77);

    // The unsigned region would have read identifier 0 at 0x8000 instead.
    let mut unsigned = Cpu::new(Game::new());
    unsigned.mmu.memory[0xFF44] = 0;
    unsigned.mmu.memory[0xFF45] = 200;
    unsigned.mmu.memory[0xFF47] = 0b11100100;
    unsigned.mmu.memory[0x9000] = 0xFF;
    unsigned.render_tiles(&0b1001_0001);
    assert_eq!(unsigned.screen_data[0], 255);
}

#[test]
fn window_overrides_background_rows() {
    let mut cpu = Cpu::new(Game::new());
    cpu.mmu.memory[0xFF44] = 5;
    cpu.mmu.memory[0xFF45] = 200;
    cpu.mmu.memory[0xFF47] = 0b11100100;
    // Window from the top-left: stored X is offset by 7.
    cpu.mmu.memory[0xFF4A] = 3;
    cpu.mmu.memory[0xFF4B] = 7;
    // On scanline 5 the window is on its row 2, which reads tile bytes 4
    // and 5; the background would read row 5 (bytes 10 and 11), left zero.
    cpu.mmu.memory[0x8000 + 4] = 0xFF;

    // Window enabled (bit 5) over the unsigned tile data region.
    cpu.render_tiles(&0b1011_0001);
    assert_eq!(cpu.screen_data[(5 * 160) * 3], 0x77);

    // Without the window the same state renders the background row: white.
    let mut bg = Cpu::new(Game::new());
    bg.mmu.memory[0xFF44] = 5;
    bg.mmu.memory[0xFF45] = 200;
    bg.mmu.memory[0xFF47] = 0b11100100;
    bg.mmu.memory[0xFF4A] = 3;
    bg.mmu.memory[0xFF4B] = 7;
    bg.mmu.memory[0x8000 + 4] = 0xFF;
    bg.render_tiles(&0b1001_0001);
    assert_eq!(bg.screen_data[(5 * 160) * 3], 255);
}

#[test]
fn tall_sprites_cover_sixteen_rows() {
    let mut cpu = Cpu::new(Game::new());
    // Scanline 21 is row 11 of a sprite at y 10: only the 8x16 size (bit
    // 2 of the control byte) reaches it.
    cpu.mmu.memory[0xFF44] = 21;
    cpu.mmu.memory[0xFF47] = 0b11100100;
    cpu.mmu.memory[0xFE00] = 26;
    cpu.mmu.memory[0xFE01] = 16;
    cpu.mmu.memory[0x8000 + 22] = 0xFF;

    let mut short = Cpu::new(Game::new());
    short.mmu.memory[0xFF44] = 21;
    short.mmu.memory[0xFF47] = 0b11100100;
    short.mmu.memory[0xFE00] = 26;
    short.mmu.memory[0xFE01] = 16;
    short.mmu.memory[0x8000 + 22] = 0xFF;

    cpu.render_sprites(&0b110);
    short.render_sprites(&0b010);

    assert_eq!(cpu.screen_data[(21 * 160 + 8) * 3], 0x77);
    assert_eq!(short.screen_data[(21 * 160 + 8) * 3], 0);
}

#[test]
fn background_priority_sprite_is_not_drawn() {
    let mut cpu = Cpu::new(Game::new());
    cpu.mmu.memory[0xFF44] = 10;
    cpu.mmu.memory[0xFE00] = 26;
    cpu.mmu.memory[0xFE01] = 16;
    // Bit 7 of the attributes yields to the background: no pixel written.
    cpu.mmu.memory[0xFE03] = 0b1000_0000;
    let before = cpu.screen_data.clone();

    cpu.render_sprites(&0b10);

    assert_eq!(cpu.screen_data, before);
}
