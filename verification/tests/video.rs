use rnes::bus::{Addressable, Bus};
use rnes::ppu::oam::OamEntry;
use rnes::ppu::palette::{colour, PALETTE};
use rnes::ppu::registers::{PPUAddress, PPUControl, PPUMask};
use rnes::ppu::shift::PPUShift;
use rnes::ppu::sprite::SpriteShift;
use rnes::ppu::unit::PPU;
use rnes::ppu::video::VideoComponent;
use rnes::ppu::vram::VRam;
use rnes::rom::nrom::NromChr;
use rnes::rom::MirrorArrangement;

fn screen() -> Vec<u32> {
    vec![0u32; 256 * 240]
}

/// A video unit over pattern memory `chr` and blank nametable memory.
fn unit_with(chr: NromChr) -> PPU {
    let mut bus = Bus::new();
    bus.register_region(0x0000, 0x1FFF, VideoComponent::Pattern(chr));
    bus.register_region(0x2000, 0x3FFF, VideoComponent::Memory(VRam::new()));
    PPU::new(bus)
}

fn unit() -> PPU {
    unit_with(NromChr::blank())
}

/// Ticks until the unit stands at the given dot.
fn run_to(ppu: &mut PPU, scanline: u32, cycle: u32, screen: &mut [u32]) -> usize {
    let mut edges = 0;
    while ppu.regs.scanline != scanline || ppu.regs.cycle != cycle {
        if ppu.tick(screen) {
            edges += 1;
        }
    }
    edges
}

#[test]
fn power_on_state() {
    let ppu = unit();
    let regs = ppu.registers();
    assert_eq!(regs.scanline, 241);
    assert_eq!(regs.cycle, 0);
    assert!(regs.vblank);
    assert!(regs.reset);
    assert!(regs.sprite_overflow);
    assert!(!regs.nmi_enabled);
    assert_eq!(regs.increment_size, 1);
    assert_eq!(ppu.frame_count(), 0);
    assert_eq!(ppu.oam_entry(0), OamEntry::default());
    assert_eq!(ppu.oam_entry(63).y, 0xFF);
    assert_eq!(ppu.secondary_entry(7), None);
}

#[test]
fn tick_walks_the_dot_grid() {
    let mut ppu = unit();
    let mut screen = screen();
    for _ in 0..341 {
        ppu.tick(&mut screen);
    }
    assert_eq!((ppu.regs.scanline, ppu.regs.cycle), (242, 0));
    run_to(&mut ppu, 261, 340, &mut screen);
    assert_eq!(ppu.frame_count(), 0);
    ppu.tick(&mut screen);
    assert_eq!((ppu.regs.scanline, ppu.regs.cycle), (0, 0));
    assert_eq!(ppu.frame_count(), 1);
    assert!(ppu.regs.odd_frame);
    ppu.reset_frame_count();
    assert_eq!(ppu.frame_count(), 0);
}

#[test]
fn tick_signals_once_per_frame_when_enabled() {
    let mut ppu = unit();
    let mut screen = screen();
    // Without the interrupt enabled no dot signals, not even dot 1 of 241.
    assert_eq!(run_to(&mut ppu, 261, 2, &mut screen), 0);
    assert!(!ppu.regs.reset);
    assert!(!ppu.regs.vblank);
    ppu.write_byte(0x2000, 0x80);
    assert!(ppu.regs.nmi_enabled);
    let mut edges = 0;
    let mut at = Vec::new();
    for _ in 0..(341 * 262) {
        let dot = (ppu.regs.scanline, ppu.regs.cycle);
        if ppu.tick(&mut screen) {
            edges += 1;
            at.push(dot);
        }
    }
    assert_eq!(edges, 1);
    assert_eq!(at, vec![(241, 1)]);
    assert!(!ppu.regs.vblank);
    ppu.write_byte(0x2000, 0x00);
    assert_eq!(run_to(&mut ppu, 241, 2, &mut screen), 0);
    assert!(ppu.regs.vblank);
}

#[test]
fn flags_clear_on_the_prerender_line() {
    let mut ppu = unit();
    let mut screen = screen();
    ppu.regs.sprite0_hit = true;
    run_to(&mut ppu, 261, 1, &mut screen);
    assert!(ppu.regs.vblank && ppu.regs.sprite0_hit && ppu.regs.sprite_overflow && ppu.regs.reset);
    ppu.tick(&mut screen);
    assert!(!ppu.regs.vblank);
    assert!(!ppu.regs.sprite0_hit);
    assert!(!ppu.regs.sprite_overflow);
    assert!(!ppu.regs.reset);
}

#[test]
fn odd_frame_skips_the_idle_dot() {
    let mut ppu = unit();
    let mut screen = screen();
    ppu.regs.reset = false;
    ppu.write_byte(0x2001, 0x08);
    ppu.regs.scanline = 0;
    ppu.regs.cycle = 0;
    ppu.regs.odd_frame = true;
    ppu.tick(&mut screen);
    assert_eq!(ppu.regs.cycle, 2);
    ppu.regs.cycle = 0;
    ppu.regs.odd_frame = false;
    ppu.tick(&mut screen);
    assert_eq!(ppu.regs.cycle, 1);
}

#[test]
fn sprite_evaluation_takes_eight_and_flags_the_ninth() {
    let mut ppu = unit();
    for i in 0..9 {
        ppu.primary_oam[i * 2] = OamEntry { y: 10, tile_index: i as u8, attributes: 0, x: i as u8 };
    }
    ppu.regs.scanline = 12;
    ppu.regs.sprite_overflow = false;
    ppu.evaluate_sprites();
    for slot in 0..8 {
        let (entry, index) = ppu.secondary_entry(slot).unwrap();
        assert_eq!(index, slot * 2);
        assert_eq!(entry.tile_index, slot as u8);
    }
    assert!(ppu.regs.sprite_overflow);
}

#[test]
fn sprite_evaluation_with_eight_sprites_does_not_overflow() {
    let mut ppu = unit();
    for i in 0..8 {
        ppu.primary_oam[63 - i] = OamEntry { y: 100, tile_index: 1, attributes: 0, x: 0 };
    }
    ppu.primary_oam[0] = OamEntry { y: 108, tile_index: 9, attributes: 0, x: 0 };
    ppu.regs.scanline = 107;
    ppu.regs.sprite_overflow = false;
    ppu.evaluate_sprites();
    assert_eq!(ppu.secondary_entry(0).unwrap().1, 56);
    assert_eq!(ppu.secondary_entry(7).unwrap().1, 63);
    assert!(!ppu.regs.sprite_overflow);
    // On the next scanline the sprites of 8 rows are over, the one at 108 begins.
    ppu.secondary_oam = [None; 8];
    ppu.regs.scanline = 108;
    ppu.evaluate_sprites();
    assert_eq!(ppu.secondary_entry(0).unwrap().1, 0);
    assert_eq!(ppu.secondary_entry(1), None);
    // Tall sprites still cover it.
    ppu.secondary_oam = [None; 8];
    ppu.regs.sprite_size = true;
    ppu.evaluate_sprites();
    assert_eq!(ppu.secondary_entry(0).unwrap().1, 0);
    assert_eq!(ppu.secondary_entry(1).unwrap().1, 56);
    assert_eq!(ppu.secondary_entry(7).unwrap().1, 62);
    assert!(ppu.regs.sprite_overflow);
    assert!(OamEntry { y: 100, tile_index: 0, attributes: 0, x: 0 }.covers(115, 16));
    assert!(!OamEntry { y: 100, tile_index: 0, attributes: 0, x: 0 }.covers(116, 16));
    assert!(!OamEntry { y: 100, tile_index: 0, attributes: 0, x: 0 }.covers(99, 8));
}

#[test]
fn sprite_shifters_load_the_row_of_the_scanline() {
    let mut pattern = vec![0u8; 0x2000];
    // Tile 2 in the table at 0x1000: row 3 is 0x81 / 0x18.
    pattern[0x1000 + 2 * 16 + 3] = 0x81;
    pattern[0x1000 + 2 * 16 + 3 + 8] = 0x18;
    // Row 4, which a vertical flip shows in place of row 3.
    pattern[0x1000 + 2 * 16 + 4] = 0x42;
    pattern[0x1000 + 2 * 16 + 4 + 8] = 0x24;
    let mut ppu = unit_with(NromChr::from_slice(&pattern, 0));
    ppu.regs.sprite_table = 0x1000;
    ppu.regs.scanline = 23;
    ppu.secondary_oam[1] = Some((OamEntry { y: 20, tile_index: 2, attributes: 0x01, x: 5 }, 7));
    ppu.secondary_oam[2] = Some((OamEntry { y: 20, tile_index: 2, attributes: 0x80, x: 9 }, 8));
    ppu.load_sprite_shifts();
    assert_eq!(
        ppu.secondary_shifters[1],
        SpriteShift { pattern_low: 0x81, pattern_high: 0x18, attribute: 0x01 }
    );
    assert_eq!(
        ppu.secondary_shifters[2],
        SpriteShift { pattern_low: 0x42, pattern_high: 0x24, attribute: 0x80 }
    );
    assert_eq!(ppu.secondary_shifters[0], SpriteShift::new());
}

#[test]
fn sprite_pixel_picks_the_first_opaque_sprite() {
    let mut ppu = unit();
    ppu.regs.mask = PPUMask(0x14);
    ppu.current_oam[0] = Some((OamEntry { y: 0, tile_index: 0, attributes: 0x00, x: 16 }, 3));
    ppu.current_oam[1] = Some((OamEntry { y: 0, tile_index: 0, attributes: 0x22, x: 18 }, 4));
    // Sprite 0 of the line: only its leftmost column is opaque.
    ppu.secondary_shifters[0] = SpriteShift { pattern_low: 0x80, pattern_high: 0, attribute: 0 };
    // Sprite 1 of the line: all columns, colour 3 of palette 2, behind the background.
    ppu.secondary_shifters[1] =
        SpriteShift { pattern_low: 0xFF, pattern_high: 0xFF, attribute: 0x22 };
    ppu.regs.cycle = 17;
    assert_eq!(ppu.get_sprite_pixel(), (1, 3, false));
    ppu.regs.cycle = 18;
    assert_eq!(ppu.get_sprite_pixel(), (0, 0, false));
    ppu.regs.cycle = 19;
    assert_eq!(ppu.get_sprite_pixel(), (0x0B, 4, true));
    ppu.regs.cycle = 27;
    assert_eq!(ppu.get_sprite_pixel(), (0, 0, false));
    // Hidden in the leftmost columns.
    ppu.regs.mask = PPUMask(0x10);
    ppu.current_oam[0] = Some((OamEntry { y: 0, tile_index: 0, attributes: 0, x: 0 }, 3));
    ppu.regs.cycle = 1;
    assert_eq!(ppu.get_sprite_pixel(), (0, 0, false));
    ppu.regs.mask = PPUMask(0x14);
    assert_eq!(ppu.get_sprite_pixel(), (1, 3, false));
}

#[test]
fn sprite_shift_flips_horizontally() {
    let plain = SpriteShift { pattern_low: 0x80, pattern_high: 0x01, attribute: 0x03 };
    assert_eq!(plain.get_pixel_color_index(0), 0x0D);
    assert_eq!(plain.get_pixel_color_index(7), 0x0E);
    assert_eq!(plain.get_pixel_color_index(3), 0x0C);
    let flipped = SpriteShift { pattern_low: 0x80, pattern_high: 0x01, attribute: 0x43 };
    assert_eq!(flipped.get_pixel_color_index(0), 0x0E);
    assert_eq!(flipped.get_pixel_color_index(7), 0x0D);
}

#[test]
fn background_shifters() {
    let mut shift = PPUShift::new();
    shift.pattern_low = 0xAB00;
    shift.load_pattern_low(0xCD);
    shift.load_pattern_high(0x0F);
    assert_eq!(shift.pattern_low, 0xABCD);
    assert_eq!(shift.pattern_high, 0x000F);
    shift.load_attribute(0b10);
    assert_eq!(shift.attribute, 0x0000_AAAA);
    shift.attribute = 0xC000_0000 | 0x0000_AAAA;
    assert_eq!(shift.get_pixel_color_index(0), 0b1101);
    assert_eq!(shift.get_pixel_color_index(1), 0b0000);
    assert_eq!(shift.get_pixel_color_index(2), 0b0001);
    shift.shift();
    assert_eq!(shift.pattern_low, 0x579A);
    assert_eq!(shift.pattern_high, 0x001E);
    assert_eq!(shift.attribute, 0x0002_AAA8);
}

#[test]
fn loopy_register_fields() {
    let mut address = PPUAddress(0);
    address.set_coarse_x(0x1F);
    address.set_coarse_y(0x15);
    address.set_nametable_select(2);
    address.set_fine_y(5);
    assert_eq!(address.0, 0x5ABF);
    assert_eq!(address.coarse_x(), 0x1F);
    assert_eq!(address.coarse_y(), 0x15);
    assert_eq!(address.nametable_select(), 2);
    assert_eq!(address.fine_y(), 5);
    address.set_coarse_x(32);
    assert_eq!(address.0, 0x5AA0);
    address.set_fine_y(8);
    assert_eq!(address.0, 0x0AA0);
    let mut high = PPUAddress(0xFFFF);
    high.set_coarse_y(0);
    assert_eq!(high.0, 0xFC1F);
}

#[test]
fn scroll_increments() {
    let mut ppu = unit();
    ppu.regs.v = PPUAddress(0x001F);
    ppu.increment_x();
    assert_eq!(ppu.regs.v.0, 0x0400);
    ppu.increment_x();
    assert_eq!(ppu.regs.v.0, 0x0401);
    // Fine y counts to 8 before coarse y moves.
    ppu.regs.v = PPUAddress(0x6000);
    ppu.increment_y();
    assert_eq!(ppu.regs.v.0, 0x7000);
    ppu.increment_y();
    assert_eq!(ppu.regs.v.0, 0x0020);
    // Coarse y wraps at 30 and flips the vertical nametable.
    ppu.regs.v = PPUAddress(0x7000 | (29 << 5));
    ppu.increment_y();
    assert_eq!(ppu.regs.v.0, 0x0800);
    // From 31 it wraps without the flip.
    ppu.regs.v = PPUAddress(0x7000 | (31 << 5));
    ppu.increment_y();
    assert_eq!(ppu.regs.v.0, 0x0000);
}

#[test]
fn scroll_is_copied_from_the_temporary_register() {
    let mut ppu = unit();
    ppu.regs.t = PPUAddress(0x7FFF);
    ppu.regs.v = PPUAddress(0);
    ppu.regs.cycle = 257;
    ppu.regs.scanline = 5;
    ppu.update_address();
    assert_eq!(ppu.regs.v.0, 0x041F);
    ppu.regs.cycle = 280;
    ppu.update_address();
    assert_eq!(ppu.regs.v.0, 0x041F);
    ppu.regs.scanline = 261;
    ppu.update_address();
    assert_eq!(ppu.regs.v.0, 0x7FFF);
    ppu.regs.v = PPUAddress(0);
    ppu.regs.cycle = 8;
    ppu.update_address();
    assert_eq!(ppu.regs.v.0, 1);
    ppu.regs.cycle = 256;
    ppu.update_address();
    assert_eq!(ppu.regs.v.0, 0x1002);
    ppu.regs.cycle = 9;
    ppu.update_address();
    assert_eq!(ppu.regs.v.0, 0x1002);
    ppu.copy_horizontal();
    ppu.copy_vertical();
    assert_eq!(ppu.regs.v.0, 0x7FFF);
}

#[test]
fn control_and_mask_bits() {
    let control = PPUControl(0b1010_0110);
    assert_eq!(control.nametable(), 2);
    assert!(control.vram_increment());
    assert!(!control.sprite_pattern());
    assert!(!control.background_pattern());
    assert!(control.sprite_size());
    assert!(!control.master_slave());
    assert!(control.nmi_enable());
    let mask = PPUMask(0b0101_1001);
    assert!(mask.greyscale());
    assert!(!mask.show_background_left());
    assert!(!mask.show_sprite_left());
    assert!(mask.show_background());
    assert!(mask.show_sprite());
    assert!(!mask.emphasize_red());
    assert!(mask.emphasize_green());
    assert!(!mask.emphasize_blue());
    assert!(mask.rendering());
    assert!(!PPUMask(0xE7).rendering());
}

#[test]
fn writes_are_locked_out_after_power_on() {
    let mut ppu = unit();
    ppu.write_byte(0x2000, 0xFF);
    ppu.write_byte(0x2001, 0xFF);
    ppu.write_byte(0x2005, 0xFF);
    ppu.write_byte(0x2006, 0xFF);
    let regs = ppu.registers();
    assert!(!regs.nmi_enabled);
    assert_eq!(regs.mask, PPUMask(0));
    assert_eq!(regs.t, PPUAddress(0));
    assert!(!regs.w);
    assert_eq!(regs.open_bus, 0xFF);
    // The object ports are not locked.
    ppu.write_byte(0x2003, 0x05);
    ppu.write_byte(0x2004, 0x77);
    assert_eq!(ppu.oam_entry(1).tile_index, 0x77);
    assert_eq!(ppu.registers().oam_address, 6);
}

#[test]
fn control_port_sets_tables_and_increment() {
    let mut ppu = unit();
    ppu.regs.reset = false;
    ppu.write_byte(0x3FF8, 0b1011_1111);
    let regs = ppu.registers();
    assert!(regs.nmi_enabled);
    assert!(regs.sprite_size);
    assert_eq!(regs.background_table, 0x1000);
    assert_eq!(regs.sprite_table, 0x1000);
    assert_eq!(regs.increment_size, 32);
    assert_eq!(regs.t.nametable_select(), 3);
    ppu.write_byte(0x2000, 0);
    let regs = ppu.registers();
    assert_eq!(regs.background_table, 0);
    assert_eq!(regs.sprite_table, 0);
    assert_eq!(regs.increment_size, 1);
    assert_eq!(regs.t.0, 0);
}

#[test]
fn scroll_and_address_ports_take_two_writes() {
    let mut ppu = unit();
    ppu.regs.reset = false;
    ppu.write_byte(0x2005, 0b1010_1101);
    assert_eq!(ppu.registers().t.coarse_x(), 0b10101);
    assert_eq!(ppu.registers().fine_x, 0b101);
    assert!(ppu.registers().w);
    ppu.write_byte(0x2005, 0b0101_1011);
    assert_eq!(ppu.registers().t.coarse_y(), 0b01011);
    assert_eq!(ppu.registers().t.fine_y(), 0b11);
    assert!(!ppu.registers().w);
    ppu.write_byte(0x2006, 0x21);
    assert_eq!(ppu.registers().t.0 >> 8, 0x21);
    assert_eq!(ppu.registers().v.0, 0);
    ppu.write_byte(0x2006, 0x08);
    assert_eq!(ppu.registers().t.0, 0x2108);
    assert_eq!(ppu.registers().v.0, 0x2108);
}

#[test]
fn status_read_clears_vblank_and_the_write_toggle() {
    let mut ppu = unit();
    ppu.regs.reset = false;
    ppu.regs.sprite_overflow = false;
    ppu.regs.sprite0_hit = true;
    ppu.write_byte(0x2003, 0x1F);
    ppu.write_byte(0x2005, 0);
    assert!(ppu.registers().w);
    assert_eq!(ppu.read_byte(0x2002), Some(0xC0));
    assert!(!ppu.registers().w);
    assert!(!ppu.registers().vblank);
    assert_eq!(ppu.read_byte(0x2002), Some(0x40));
    // The write-only ports answer with the latch.
    assert_eq!(ppu.read_byte(0x2000), Some(0x40));
    assert_eq!(ppu.read_byte(0x2006), Some(0x40));
}

#[test]
fn data_port_reads_are_buffered_below_the_palette() {
    let mut ppu = unit();
    ppu.regs.reset = false;
    ppu.write_byte(0x2006, 0x20);
    ppu.write_byte(0x2006, 0x00);
    ppu.write_byte(0x2007, 0x11);
    ppu.write_byte(0x2007, 0x22);
    assert_eq!(ppu.registers().v.0, 0x2002);
    ppu.write_byte(0x2006, 0x20);
    ppu.write_byte(0x2006, 0x00);
    assert_eq!(ppu.read_byte(0x2007), Some(0x00));
    assert_eq!(ppu.read_byte(0x2007), Some(0x11));
    assert_eq!(ppu.read_byte(0x2007), Some(0x22));
    // Palette reads are not delayed; the buffer takes the nametable byte
    // that lies 0x1000 below.
    ppu.write_byte(0x2006, 0x2F);
    ppu.write_byte(0x2006, 0x01);
    ppu.write_byte(0x2007, 0x99);
    ppu.write_byte(0x2006, 0x3F);
    ppu.write_byte(0x2006, 0x01);
    ppu.write_byte(0x2007, 0x2A);
    ppu.write_byte(0x2006, 0x3F);
    ppu.write_byte(0x2006, 0x01);
    assert_eq!(ppu.read_byte(0x2007), Some(0x2A));
    assert_eq!(ppu.registers().internal_data_buffer, 0x99);
    // With the increment of 32 the address moves a row down and wraps at
    // 0x4000.
    ppu.write_byte(0x2000, 0x04);
    ppu.write_byte(0x2006, 0x3F);
    ppu.write_byte(0x2006, 0xF0);
    ppu.write_byte(0x2007, 0);
    assert_eq!(ppu.registers().v.0, 0x0010);
}

#[test]
fn object_data_port() {
    let mut ppu = unit();
    ppu.write_byte(0x2003, 0xFC);
    for byte in [1u8, 2, 3, 4, 5] {
        ppu.write_byte(0x2004, byte);
    }
    assert_eq!(ppu.oam_entry(63), OamEntry { y: 1, tile_index: 2, attributes: 3, x: 4 });
    assert_eq!(ppu.oam_entry(0).y, 5);
    assert_eq!(ppu.registers().oam_address, 1);
    assert_eq!(ppu.read_byte(0x2004), Some(0));
    ppu.write_byte(0x2003, 0xFE);
    assert_eq!(ppu.read_byte(0x2004), Some(3));
    assert_eq!(ppu.registers().oam_address, 0xFE);
    let mut entry = OamEntry::default();
    entry.set_byte(7, 9);
    assert_eq!(entry.byte(3), 9);
    assert_eq!(entry.byte(4), 0xFF);
}

#[test]
fn palette_round_trip() {
    let mut vram = VRam::new();
    assert_eq!(vram.read_byte(0x3F04), Some(0));
    vram.write_byte(0x3F04, 0x2A);
    assert_eq!(vram.read_byte(0x3F04), Some(0x2A));
    for address in 0x3F00u16..=0x3FFF {
        let data = (address & 0xFF) as u8 ^ 0x5A;
        vram.write_byte(address, data);
        assert_eq!(vram.read_byte(address), Some(data), "at {:04X}", address);
    }
    // The sprite backdrop entries are the background backdrop entries.
    vram.write_byte(0x3F00, 0x01);
    vram.write_byte(0x3F10, 0x02);
    assert_eq!(vram.read_byte(0x3F00), Some(0x02));
    assert_eq!(vram.read_byte(0x3F10), Some(0x02));
    vram.write_byte(0x3F14, 0x03);
    assert_eq!(vram.read_byte(0x3F04), Some(0x03));
    assert_eq!(vram.read_byte(0x3F24), Some(0x03));
    assert_eq!(vram.read_byte(0x3F14), Some(0x03));
    // The mirrors of the palette do not fold: 0x3F30 is entry 16.
    vram.write_byte(0x3F30, 0x04);
    assert_eq!(vram.read_byte(0x3F10), Some(0x02));
    assert_eq!(vram.read_byte(0x3F50), Some(0x04));
    vram.write_byte(0x3F1C, 0x05);
    assert_eq!(vram.read_byte(0x3F0C), Some(0x05));
}

#[test]
fn transparent_background_shows_the_universal_backdrop() {
    let mut pattern = vec![0u8; 0x2000];
    // Tile 1 is solid in plane 0; tile 0 is transparent.
    for row in 0..8 {
        pattern[16 + row] = 0xFF;
    }
    let mut ppu = unit_with(NromChr::from_slice(&pattern, 0));
    let mut screen = screen();
    ppu.regs.reset = false;
    // All tiles are transparent and use palette 1 (attribute bits 01).
    ppu.write_byte(0x2006, 0x23);
    ppu.write_byte(0x2006, 0xC0);
    for _ in 0..0x40 {
        ppu.write_byte(0x2007, 0x55);
    }
    ppu.write_byte(0x2006, 0x3F);
    ppu.write_byte(0x2006, 0x00);
    ppu.write_byte(0x2007, 0x0F);
    ppu.write_byte(0x2006, 0x3F);
    ppu.write_byte(0x2006, 0x04);
    ppu.write_byte(0x2007, 0x21);
    ppu.write_byte(0x2006, 0x00);
    ppu.write_byte(0x2006, 0x00);
    ppu.write_byte(0x2001, 0x0A);
    run_to(&mut ppu, 261, 0, &mut screen);
    run_to(&mut ppu, 240, 0, &mut screen);
    // Entry 4 holds its own byte, but the picture shows entry 0.
    assert_eq!(screen[100 + 20 * 256], PALETTE[0x0F]);
    ppu.write_byte(0x2006, 0x3F);
    ppu.write_byte(0x2006, 0x04);
    assert_eq!(ppu.read_byte(0x2007), Some(0x21));
}

#[test]
fn nametable_mirroring() {
    let mut vram = VRam::default();
    assert_eq!(vram.mirroring(), MirrorArrangement::Horizontal);
    vram.write_byte(0x2005, 0x11);
    vram.write_byte(0x2805, 0x22);
    assert_eq!(vram.read_byte(0x2405), Some(0x11));
    assert_eq!(vram.read_byte(0x2C05), Some(0x22));
    assert_eq!(vram.read_byte(0x3005), Some(0x11));
    assert_eq!(vram.read_byte(0x3C05), Some(0x22));
    vram.set_mirroring(MirrorArrangement::Vertical);
    assert_eq!(vram.read_byte(0x2405), Some(0x22));
    assert_eq!(vram.read_byte(0x2805), Some(0x11));
    vram.set_mirroring(MirrorArrangement::OneScreenLower);
    assert_eq!(vram.read_byte(0x2C05), Some(0x11));
    vram.set_mirroring(MirrorArrangement::OneScreenUpper);
    assert_eq!(vram.read_byte(0x2005), Some(0x22));
    vram.write_byte(0x3EFF, 0x33);
    assert_eq!(vram.read_byte(0x2EFF), Some(0x33));
    assert_eq!(vram.read_byte(0x1000), Some(0));
    vram.write_byte(0x1000, 0x44);
    assert_eq!(vram.read_byte(0x1000), Some(0));
}

#[test]
fn palette_colours() {
    assert_eq!(colour(0), PALETTE[0]);
    assert_eq!(colour(0x3F), PALETTE[63]);
    assert_eq!(colour(0x40 + 5), PALETTE[5]);
    assert_eq!(PALETTE[0x0D], 0xFF000000);
}

#[test]
fn background_pixels_reach_the_screen() {
    let mut pattern = vec![0u8; 0x2000];
    // Tile 1: every row solid in plane 0.
    for row in 0..8 {
        pattern[16 + row] = 0xFF;
    }
    let mut ppu = unit_with(NromChr::from_slice(&pattern, 0));
    let mut screen = screen();
    ppu.regs.reset = false;
    // Nametable: all tiles are tile 1; palette entry 1 is colour 0x21, the
    // backdrop 0x0F.
    ppu.write_byte(0x2006, 0x20);
    ppu.write_byte(0x2006, 0x00);
    for _ in 0..0x3C0 {
        ppu.write_byte(0x2007, 1);
    }
    ppu.write_byte(0x2006, 0x3F);
    ppu.write_byte(0x2006, 0x00);
    ppu.write_byte(0x2007, 0x0F);
    ppu.write_byte(0x2007, 0x21);
    ppu.write_byte(0x2006, 0x00);
    ppu.write_byte(0x2006, 0x00);
    ppu.write_byte(0x2001, 0x0A);
    run_to(&mut ppu, 261, 0, &mut screen);
    run_to(&mut ppu, 240, 0, &mut screen);
    // The first two tiles of a line are fetched at the end of the line
    // before; the line itself is solid.
    assert_eq!(screen[100 + 20 * 256], PALETTE[0x21]);
    assert_eq!(screen[255 + 231 * 256], PALETTE[0x21]);
    // The top and bottom eight lines are not drawn.
    assert_eq!(screen[100 + 7 * 256], 0);
    assert_eq!(screen[100 + 232 * 256], 0);
    assert!(!ppu.registers().sprite0_hit);
}

#[test]
fn sprite_zero_hit_over_opaque_background() {
    let mut pattern = vec![0u8; 0x2000];
    for row in 0..8 {
        pattern[16 + row] = 0xFF;
    }
    let mut ppu = unit_with(NromChr::from_slice(&pattern, 0));
    let mut screen = screen();
    ppu.regs.reset = false;
    ppu.write_byte(0x2006, 0x20);
    ppu.write_byte(0x2006, 0x00);
    for _ in 0..0x3C0 {
        ppu.write_byte(0x2007, 1);
    }
    ppu.write_byte(0x2006, 0x3F);
    ppu.write_byte(0x2006, 0x11);
    ppu.write_byte(0x2007, 0x16);
    ppu.write_byte(0x2006, 0x00);
    ppu.write_byte(0x2006, 0x00);
    // Sprite 0 at (40, 50) with tile 1.
    ppu.write_byte(0x2003, 0);
    for byte in [50u8, 1, 0, 40] {
        ppu.write_byte(0x2004, byte);
    }
    ppu.write_byte(0x2001, 0x1E);
    run_to(&mut ppu, 261, 0, &mut screen);
    run_to(&mut ppu, 50, 0, &mut screen);
    assert!(!ppu.registers().sprite0_hit);
    run_to(&mut ppu, 52, 0, &mut screen);
    assert!(ppu.registers().sprite0_hit);
    // The sprite is drawn from the line after the one it was found on.
    assert_eq!(screen[40 + 51 * 256], PALETTE[0x16]);
    assert_eq!(screen[47 + 51 * 256], PALETTE[0x16]);
    assert_ne!(screen[48 + 51 * 256], PALETTE[0x16]);
}

#[test]
fn a_short_frame_buffer_is_not_written_past_its_end() {
    let mut ppu = unit();
    let mut small = vec![7u32; 256 * 9];
    ppu.regs.reset = false;
    ppu.write_byte(0x2001, 0x08);
    run_to(&mut ppu, 261, 0, &mut small);
    run_to(&mut ppu, 240, 0, &mut small);
    assert_eq!(small[256 * 8], PALETTE[0]);
    assert_eq!(small[256 * 8 - 1], 7);
    assert!(ppu.advance(&mut small, 0) == false);
    assert_eq!(ppu.video_bus().region_count(), 2);
}
