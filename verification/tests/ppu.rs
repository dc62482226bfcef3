use rnes::mapper::create_mapper;
use rnes::ricoh2c02::Ricoh2C02;
use rnes::rom::Rom;

const CTRL: u16 = 0x2000;
const MASK: u16 = 0x2001;
const STATUS: u16 = 0x2002;
const OAMADDR: u16 = 0x2003;
const OAMDATA: u16 = 0x2004;
const SCROLL: u16 = 0x2005;
const ADDR: u16 = 0x2006;
const DATA: u16 = 0x2007;

/// A picture unit on an NROM cartridge with pattern RAM.
fn ppu(flags6: u8) -> Ricoh2C02 {
    let mut bytes = vec![0x4e, 0x45, 0x53, 0x1a, 1, 0, flags6, 0];
    bytes.resize(16 + 16384, 0);
    Ricoh2C02::new(create_mapper(Rom::new(&bytes).unwrap()).unwrap())
}

fn poke(unit: &mut Ricoh2C02, address: u16, value: u8) {
    unit.io_write(ADDR, (address >> 8) as u8);
    unit.io_write(ADDR, address as u8);
    unit.io_write(DATA, value);
}

fn peek(unit: &mut Ricoh2C02, address: u16) -> u8 {
    unit.io_write(ADDR, (address >> 8) as u8);
    unit.io_write(ADDR, address as u8);
    unit.io_read(DATA);
    unit.io_read(DATA)
}

fn ticks(unit: &mut Ricoh2C02, n: usize) {
    for _ in 0..n {
        unit.tick();
    }
}

/// Ticks until the unit stands at the given dot, and says how many ticks
/// that took.
fn run_to(unit: &mut Ricoh2C02, scanline: i16, cycle: u16) -> usize {
    let mut n = 0;
    while unit.scanline() != scanline || unit.cycle() != cycle {
        unit.tick();
        n += 1;
    }
    n
}

#[test]
fn ppu_starts_before_the_first_line() {
    let unit = ppu(0);
    assert_eq!(unit.scanline(), -1);
    assert_eq!(unit.cycle(), 0);
    assert!(!unit.odd());
    assert!(!unit.rendering_enabled());
}

#[test]
fn ppu_registers_lie_between_0x2000_and_0x3fff() {
    let unit = ppu(0);
    assert!(!unit.in_range(0x1fff));
    assert!(unit.in_range(0x2000));
    assert!(unit.in_range(0x3fff));
    assert!(!unit.in_range(0x4000));
}

#[test]
fn address_pair_sets_v() {
    let mut unit = ppu(0);
    unit.io_write(ADDR, 0xff);
    unit.io_write(ADDR, 0x12);
    // v is 0x3f12: the write lands in the palette
    unit.io_write(DATA, 0x2a);
    assert_eq!(unit.palette_read(0x3f12), 0x2a);
    assert_eq!(unit.vram_read(0x3f12), 0x2a);
}

#[test]
fn status_read_clears_the_write_toggle() {
    let mut unit = ppu(0);
    unit.io_write(ADDR, 0x3f);
    unit.io_read(STATUS);
    // the next pair starts afresh
    unit.io_write(ADDR, 0x21);
    unit.io_write(ADDR, 0x08);
    unit.io_write(DATA, 0x77);
    assert_eq!(unit.nametable_read(0x2108), 0x77);
}

#[test]
fn status_read_clears_the_toggle_of_the_scroll_pair_too() {
    let mut unit = ppu(0);
    unit.io_write(SCROLL, 0x00);
    unit.io_read(STATUS);
    unit.io_write(ADDR, 0x23);
    unit.io_write(ADDR, 0x45);
    unit.io_write(DATA, 0x99);
    assert_eq!(unit.nametable_read(0x2345), 0x99);
}

#[test]
fn status_low_bits_are_the_last_byte_on_the_interface() {
    let mut unit = ppu(0);
    unit.io_write(OAMADDR, 0xff);
    assert_eq!(unit.io_read(STATUS), 0x1f);
    unit.io_write(MASK, 0x0a);
    assert_eq!(unit.io_read(STATUS), 0x0a);
}

#[test]
fn write_only_registers_read_the_latch() {
    let mut unit = ppu(0);
    unit.io_write(SCROLL, 0x5a);
    assert_eq!(unit.io_read(CTRL), 0x5a);
    assert_eq!(unit.io_read(MASK), 0x5a);
    assert_eq!(unit.io_read(OAMADDR), 0x5a);
    assert_eq!(unit.io_read(SCROLL), 0x5a);
    assert_eq!(unit.io_read(ADDR), 0x5a);
}

#[test]
fn data_port_steps_by_1_or_32() {
    let mut unit = ppu(0);
    unit.io_write(ADDR, 0x20);
    unit.io_write(ADDR, 0x00);
    unit.io_write(DATA, 1);
    unit.io_write(DATA, 2);
    assert_eq!(unit.nametable_read(0x2000), 1);
    assert_eq!(unit.nametable_read(0x2001), 2);
    unit.io_write(CTRL, 0x04);
    unit.io_write(ADDR, 0x20);
    unit.io_write(ADDR, 0x00);
    unit.io_write(DATA, 3);
    unit.io_write(DATA, 4);
    assert_eq!(unit.nametable_read(0x2000), 3);
    assert_eq!(unit.nametable_read(0x2020), 4);
}

#[test]
fn data_port_reads_are_one_behind() {
    let mut unit = ppu(0);
    poke(&mut unit, 0x2000, 0x11);
    poke(&mut unit, 0x2001, 0x22);
    unit.io_write(ADDR, 0x20);
    unit.io_write(ADDR, 0x00);
    assert_eq!(unit.io_read(DATA), 0x00);
    assert_eq!(unit.io_read(DATA), 0x11);
    assert_eq!(unit.io_read(DATA), 0x22);
}

#[test]
fn data_port_reads_the_palette_at_once() {
    let mut unit = ppu(0);
    // the nametable byte behind 0x3f05 is at 0x2f05
    poke(&mut unit, 0x2f05, 0x66);
    poke(&mut unit, 0x3f05, 0x15);
    unit.io_write(ADDR, 0x3f);
    unit.io_write(ADDR, 0x05);
    assert_eq!(unit.io_read(DATA), 0x15);
    // the buffer was filled from behind the palette
    unit.io_write(ADDR, 0x20);
    unit.io_write(ADDR, 0x00);
    assert_eq!(unit.io_read(DATA), 0x66);
}

#[test]
fn v_wraps_at_fifteen_bits() {
    let mut unit = ppu(0);
    unit.io_write(CTRL, 0x04);
    unit.io_write(ADDR, 0x3f);
    unit.io_write(ADDR, 0xe0);
    unit.io_write(DATA, 0x01);
    // v went from 0x3fe0 to 0x4000, which is pattern address 0 again
    unit.io_write(DATA, 0x5c);
    assert_eq!(unit.vram_read(0x0000), 0x5c);
}

#[test]
fn palette_mirrors_fold_onto_the_backdrop_entries() {
    for (mirror, entry) in [(0x3f10, 0x3f00), (0x3f14, 0x3f04), (0x3f18, 0x3f08), (0x3f1c, 0x3f0c)]
    {
        let mut unit = ppu(0);
        unit.palette_write(mirror, 0x21);
        assert_eq!(unit.palette_read(mirror), 0x21);
        assert_eq!(unit.palette_read(entry), 0x21);
        unit.palette_write(entry, 0x0f);
        assert_eq!(unit.palette_read(mirror), 0x0f);
    }
}

#[test]
fn palette_entries_other_than_the_mirrors_are_separate() {
    let mut unit = ppu(0);
    unit.palette_write(0x3f11, 0x01);
    unit.palette_write(0x3f01, 0x02);
    assert_eq!(unit.palette_read(0x3f11), 0x01);
    assert_eq!(unit.palette_read(0x3f01), 0x02);
}

#[test]
fn palette_keeps_six_bits_and_repeats_every_32_bytes() {
    let mut unit = ppu(0);
    unit.palette_write(0x3f02, 0xff);
    assert_eq!(unit.palette_read(0x3f02), 0x3f);
    assert_eq!(unit.palette_read(0x3f22), 0x3f);
    assert_eq!(unit.vram_read(0x3fe2), 0x3f);
}

#[test]
fn greyscale_keeps_the_grey_level() {
    let mut unit = ppu(0);
    unit.palette_write(0x3f03, 0x2c);
    unit.io_write(MASK, 0x01);
    assert_eq!(unit.palette_read(0x3f03), 0x20);
    unit.io_write(MASK, 0x00);
    assert_eq!(unit.palette_read(0x3f03), 0x2c);
}

#[test]
fn vertical_mirroring_pairs_the_tables_left_and_right() {
    let mut unit = ppu(1);
    poke(&mut unit, 0x2000, 0xaa);
    poke(&mut unit, 0x2400, 0x55);
    assert_eq!(peek(&mut unit, 0x2800), 0xaa);
    assert_eq!(peek(&mut unit, 0x2400), 0x55);
    assert_eq!(peek(&mut unit, 0x2c00), 0x55);
    assert_eq!(peek(&mut unit, 0x2000), 0xaa);
}

#[test]
fn horizontal_mirroring_pairs_the_tables_top_and_bottom() {
    let mut unit = ppu(0);
    poke(&mut unit, 0x2000, 0xaa);
    poke(&mut unit, 0x2800, 0x55);
    assert_eq!(peek(&mut unit, 0x2400), 0xaa);
    assert_eq!(peek(&mut unit, 0x2c00), 0x55);
    assert_eq!(peek(&mut unit, 0x2000), 0xaa);
}

#[test]
fn four_screen_keeps_the_tables_apart() {
    let mut unit = ppu(8);
    poke(&mut unit, 0x2000, 1);
    poke(&mut unit, 0x2400, 2);
    poke(&mut unit, 0x2800, 3);
    poke(&mut unit, 0x2c00, 4);
    assert_eq!(peek(&mut unit, 0x2000), 1);
    assert_eq!(peek(&mut unit, 0x2400), 2);
    assert_eq!(peek(&mut unit, 0x2800), 3);
    assert_eq!(peek(&mut unit, 0x2c00), 4);
}

#[test]
fn nametables_repeat_at_0x3000() {
    let mut unit = ppu(1);
    poke(&mut unit, 0x2123, 0x42);
    assert_eq!(unit.vram_read(0x3123), 0x42);
    unit.vram_write(0x3456, 0x24);
    assert_eq!(unit.nametable_read(0x2456), 0x24);
}

#[test]
fn pattern_tables_go_to_the_cartridge() {
    let mut unit = ppu(0);
    poke(&mut unit, 0x0abc, 0x3c);
    assert_eq!(unit.vram_read(0x0abc), 0x3c);
    assert_eq!(unit.vram_read(0x4abc), 0x3c);
}

#[test]
fn oam_data_port_writes_and_steps() {
    let mut unit = ppu(0);
    unit.io_write(OAMADDR, 0xfe);
    unit.io_write(OAMDATA, 1);
    unit.io_write(OAMDATA, 2);
    unit.io_write(OAMDATA, 3);
    unit.io_write(OAMADDR, 0xfe);
    assert_eq!(unit.io_read(OAMDATA), 1);
    // a read does not step
    assert_eq!(unit.io_read(OAMDATA), 1);
    unit.io_write(OAMADDR, 0xff);
    assert_eq!(unit.io_read(OAMDATA), 2);
    unit.io_write(OAMADDR, 0x00);
    assert_eq!(unit.io_read(OAMDATA), 3);
}

#[test]
fn tile_and_attribute_addresses() {
    let mut unit = ppu(0);
    // v = 0x2be5: nametable 2, coarse y 31, coarse x 5
    unit.io_write(ADDR, 0x2b);
    unit.io_write(ADDR, 0xe5);
    assert_eq!(unit.get_tile_address(), 0x2be5);
    assert_eq!(unit.get_attribute_address(), 0x23c0 | 0x0800 | 0x38 | 0x01);
}

#[test]
fn a_line_has_341_dots_and_a_frame_262_lines() {
    let mut unit = ppu(0);
    assert_eq!(run_to(&mut unit, 0, 0), 341);
    assert_eq!(run_to(&mut unit, 1, 0), 341);
    assert_eq!(run_to(&mut unit, -1, 0), 260 * 341);
    assert!(unit.odd());
    unit.tick();
    assert_eq!(run_to(&mut unit, -1, 0), 262 * 341 - 1);
    assert!(!unit.odd());
}

/// Ticks through one line before the first visible one, from its first dot
/// to the first dot of line 0, and says how many ticks that took.
fn prerender_line(unit: &mut Ricoh2C02) -> usize {
    run_to(unit, -1, 0);
    run_to(unit, 0, 0)
}

#[test]
fn the_line_after_an_odd_frame_is_a_dot_short_while_rendering() {
    let mut unit = ppu(0);
    unit.io_write(MASK, 0x08);
    let mut lines = Vec::new();
    for _ in 0..5 {
        lines.push(prerender_line(&mut unit));
        unit.tick();
    }
    assert_eq!(lines, vec![341, 341, 340, 341, 340]);
}

#[test]
fn frames_alternate_between_89342_and_89341_dots_while_rendering() {
    let mut unit = ppu(0);
    unit.io_write(MASK, 0x08);
    assert_eq!(run_to(&mut unit, 0, 0), 341);
    // lines 0 to 260 of the first frame, which is even, and a whole line
    unit.tick();
    assert_eq!(run_to(&mut unit, 0, 0), 262 * 341 - 1);
    // lines 0 to 260 of the second frame, which is odd, and a short line
    unit.tick();
    assert_eq!(run_to(&mut unit, 0, 0), 261 * 341 + 340 - 1);
    unit.tick();
    assert_eq!(run_to(&mut unit, 0, 0), 262 * 341 - 1);
    unit.tick();
    assert_eq!(run_to(&mut unit, 0, 0), 261 * 341 + 340 - 1);
}

#[test]
fn odd_frames_are_whole_while_rendering_is_off() {
    let mut unit = ppu(0);
    let mut lines = Vec::new();
    for _ in 0..4 {
        lines.push(prerender_line(&mut unit));
        unit.tick();
    }
    assert_eq!(lines, vec![341, 341, 341, 341]);
}

#[test]
fn the_line_after_an_even_frame_is_whole() {
    let mut unit = ppu(0);
    unit.io_write(MASK, 0x10);
    run_to(&mut unit, 260, 340);
    assert!(!unit.odd());
    unit.tick();
    // the flag has flipped, and the line that follows the even frame is whole
    assert!(unit.odd());
    assert!(!unit.short_line());
    ticks(&mut unit, 338);
    assert_eq!((unit.scanline(), unit.cycle()), (-1, 338));
    unit.tick();
    assert_eq!((unit.scanline(), unit.cycle()), (-1, 339));
    ticks(&mut unit, 2);
    assert_eq!((unit.scanline(), unit.cycle()), (0, 0));
}

#[test]
fn the_skipped_dot_is_dot_339_of_the_line_after_an_odd_frame() {
    let mut unit = ppu(0);
    unit.io_write(MASK, 0x10);
    run_to(&mut unit, 260, 340);
    unit.tick();
    run_to(&mut unit, 260, 340);
    assert!(unit.odd());
    unit.tick();
    assert!(!unit.odd());
    assert!(unit.short_line());
    assert_eq!((unit.scanline(), unit.cycle()), (-1, 0));
    ticks(&mut unit, 338);
    assert_eq!((unit.scanline(), unit.cycle()), (-1, 338));
    unit.tick();
    assert_eq!((unit.scanline(), unit.cycle()), (-1, 340));
    unit.tick();
    assert_eq!((unit.scanline(), unit.cycle()), (0, 0));
}

#[test]
fn rendering_switched_off_before_the_skip_keeps_the_line_whole() {
    let mut unit = ppu(0);
    unit.io_write(MASK, 0x08);
    run_to(&mut unit, 260, 340);
    unit.tick();
    run_to(&mut unit, 260, 340);
    unit.tick();
    ticks(&mut unit, 300);
    unit.io_write(MASK, 0x00);
    assert_eq!(run_to(&mut unit, 0, 0), 41);
}

#[test]
fn background_is_masked_in_all_eight_left_columns() {
    let mut unit = ppu(0);
    opaque_background(&mut unit);
    // background on, its left columns off
    unit.io_write(MASK, 0x08);
    run_to(&mut unit, 240, 0);
    let rgb = unit.draw_screen();
    let row = 100 * 256;
    // colour 0x0f, the backdrop, is black; colour 0x16 is (152, 34, 32)
    for x in 0..8 {
        assert_eq!(&rgb[(row + x) * 3..(row + x) * 3 + 3], &[0, 0, 0], "column {}", x);
    }
    assert_eq!(&rgb[(row + 8) * 3..(row + 8) * 3 + 3], &[152, 34, 32]);
}

#[test]
fn vblank_begins_at_dot_1_of_line_241() {
    let mut unit = ppu(0);
    // 242 lines and the dots 0 and 1
    ticks(&mut unit, 242 * 341 + 1);
    assert_eq!((unit.scanline(), unit.cycle()), (241, 1));
    assert!(!unit.should_redraw());
    unit.tick();
    assert!(unit.should_redraw());
    assert!(!unit.should_redraw());
    assert_eq!(unit.io_read(STATUS) & 0x80, 0x80);
    assert_eq!(unit.io_read(STATUS) & 0x80, 0x00);
    assert!(!unit.should_nmi());
}

#[test]
fn vblank_ends_at_dot_1_of_the_line_before_the_first() {
    let mut unit = ppu(0);
    ticks(&mut unit, 262 * 341 + 1);
    assert_eq!((unit.scanline(), unit.cycle()), (-1, 1));
    let mut other = ppu(0);
    ticks(&mut other, 262 * 341 + 2);
    assert_eq!(unit.io_read(STATUS) & 0x80, 0x80);
    assert_eq!(other.io_read(STATUS) & 0x80, 0x00);
}

#[test]
fn vblank_raises_the_interrupt_when_enabled() {
    let mut unit = ppu(0);
    unit.io_write(CTRL, 0x80);
    ticks(&mut unit, 242 * 341 + 1);
    assert!(!unit.should_nmi());
    unit.tick();
    assert!(unit.should_nmi());
    assert!(!unit.should_nmi());
}

#[test]
fn status_read_just_before_vblank_suppresses_flag_and_interrupt() {
    let mut unit = ppu(0);
    unit.io_write(CTRL, 0x80);
    run_to(&mut unit, 241, 0);
    assert_eq!(unit.io_read(STATUS) & 0x80, 0x00);
    ticks(&mut unit, 3);
    assert_eq!((unit.scanline(), unit.cycle()), (241, 3));
    assert!(!unit.should_nmi());
    assert_eq!(unit.io_read(STATUS) & 0x80, 0x00);
    // the frame is still handed over
    assert!(unit.should_redraw());
    // and nothing is raised for the rest of the frame
    while (unit.scanline(), unit.cycle()) != (240, 340) {
        unit.tick();
        assert!(!unit.should_nmi());
    }
    assert_eq!(unit.io_read(STATUS) & 0x80, 0x00);
    // and the next frame is as usual
    run_to(&mut unit, 241, 2);
    assert!(unit.should_nmi());
    assert_eq!(unit.io_read(STATUS) & 0x80, 0x80);
}

#[test]
fn status_read_after_vblank_takes_the_interrupt_back() {
    let mut unit = ppu(0);
    unit.io_write(CTRL, 0x80);
    run_to(&mut unit, 241, 2);
    assert_eq!(unit.io_read(STATUS) & 0x80, 0x80);
    assert!(!unit.should_nmi());
}

#[test]
fn screen_is_240_rows_of_256_rgb_pixels() {
    let unit = ppu(0);
    let rgb = unit.draw_screen();
    assert_eq!(rgb.len(), 256 * 240 * 3);
    // every pixel is colour 0
    assert_eq!(&rgb[0..3], &[84, 84, 84]);
    assert_eq!(&rgb[rgb.len() - 3..], &[84, 84, 84]);
}

#[test]
fn backdrop_colour_fills_the_frame_while_rendering_is_off() {
    let mut unit = ppu(0);
    poke(&mut unit, 0x3f00, 0x21);
    // leave v outside the palette
    unit.io_write(ADDR, 0x00);
    unit.io_write(ADDR, 0x00);
    run_to(&mut unit, 240, 0);
    let rgb = unit.draw_screen();
    // colour 0x21 is (76, 154, 236)
    let middle = (120 * 256 + 128) * 3;
    assert_eq!(&rgb[middle..middle + 3], &[76, 154, 236]);
    assert_eq!(&rgb[0..3], &[76, 154, 236]);
}

/// Fills tile 1 with pixels of colour 1 and the first nametable with tile 1.
fn opaque_background(unit: &mut Ricoh2C02) {
    for row in 0..8 {
        poke(unit, 0x0010 + row, 0xff);
    }
    unit.io_write(ADDR, 0x20);
    unit.io_write(ADDR, 0x00);
    for _ in 0..0x3c0 {
        unit.io_write(DATA, 1);
    }
    poke(unit, 0x3f00, 0x0f);
    poke(unit, 0x3f01, 0x16);
    poke(unit, 0x3f11, 0x2a);
    unit.io_write(ADDR, 0x00);
    unit.io_write(ADDR, 0x00);
}

#[test]
fn background_tiles_reach_the_frame() {
    let mut unit = ppu(0);
    opaque_background(&mut unit);
    unit.io_write(MASK, 0x0a);
    run_to(&mut unit, 240, 0);
    let rgb = unit.draw_screen();
    // colour 0x16 is (152, 34, 32); rows 8 to 231 show the picture
    let inside = (100 * 256 + 100) * 3;
    assert_eq!(&rgb[inside..inside + 3], &[152, 34, 32]);
    // the top rows show the backdrop, colour 0x0f, which is black
    assert_eq!(&rgb[0..3], &[0, 0, 0]);
}

#[test]
fn sprite_0_hit_is_raised_where_sprite_0_meets_the_background() {
    let mut unit = ppu(0);
    opaque_background(&mut unit);
    unit.io_write(OAMADDR, 0);
    for byte in [30, 1, 0, 100] {
        unit.io_write(OAMDATA, byte);
    }
    // the other 63 sprites wait below the picture
    for _ in 0..63 {
        for byte in [0xf0, 0, 0, 0] {
            unit.io_write(OAMDATA, byte);
        }
    }
    unit.io_write(MASK, 0x1e);
    run_to(&mut unit, 30, 0);
    assert_eq!(unit.io_read(STATUS) & 0x40, 0x00);
    run_to(&mut unit, 32, 0);
    assert_eq!(unit.io_read(STATUS) & 0x40, 0x40);
    // the flag stays until the line before the first
    run_to(&mut unit, 260, 340);
    assert_eq!(unit.io_read(STATUS) & 0x40, 0x40);
    run_to(&mut unit, -1, 2);
    assert_eq!(unit.io_read(STATUS) & 0x40, 0x00);
}

#[test]
fn sprite_0_hit_is_raised_on_dot_x_of_the_line_after_the_top_of_sprite_0() {
    let mut unit = ppu(0);
    opaque_background(&mut unit);
    unit.io_write(OAMADDR, 0);
    for byte in [30, 1, 0, 100] {
        unit.io_write(OAMDATA, byte);
    }
    for _ in 0..63 {
        for byte in [0xf0, 0, 0, 0] {
            unit.io_write(OAMDATA, byte);
        }
    }
    unit.io_write(MASK, 0x1e);
    // the sprite covers lines 30 to 37 and is drawn on lines 31 to 38
    run_to(&mut unit, 31, 100);
    assert_eq!(unit.io_read(STATUS) & 0x40, 0x00);
    unit.tick();
    assert_eq!(unit.io_read(STATUS) & 0x40, 0x40);
}

#[test]
fn sprite_0_hit_comes_with_the_first_opaque_column_of_the_sprite() {
    let mut unit = ppu(0);
    opaque_background(&mut unit);
    // tile 2 shows a pixel in columns 3 and 4 only
    for row in 0..8 {
        poke(&mut unit, 0x0020 + row, 0x18);
    }
    unit.io_write(ADDR, 0x00);
    unit.io_write(ADDR, 0x00);
    unit.io_write(OAMADDR, 0);
    for byte in [30, 2, 0, 100] {
        unit.io_write(OAMDATA, byte);
    }
    for _ in 0..63 {
        for byte in [0xf0, 0, 0, 0] {
            unit.io_write(OAMDATA, byte);
        }
    }
    unit.io_write(MASK, 0x1e);
    run_to(&mut unit, 31, 103);
    assert_eq!(unit.io_read(STATUS) & 0x40, 0x00);
    unit.tick();
    assert_eq!(unit.io_read(STATUS) & 0x40, 0x40);
}

#[test]
fn sprite_0_hit_needs_both_layers() {
    let mut unit = ppu(0);
    opaque_background(&mut unit);
    unit.io_write(OAMADDR, 0);
    for byte in [30, 1, 0, 100] {
        unit.io_write(OAMDATA, byte);
    }
    for _ in 0..63 {
        for byte in [0xf0, 0, 0, 0] {
            unit.io_write(OAMDATA, byte);
        }
    }
    // sprites only
    unit.io_write(MASK, 0x14);
    run_to(&mut unit, 60, 0);
    assert_eq!(unit.io_read(STATUS) & 0x40, 0x00);
}

#[test]
fn another_sprite_in_the_first_slot_is_no_sprite_0() {
    let mut unit = ppu(0);
    opaque_background(&mut unit);
    unit.io_write(OAMADDR, 0);
    // sprite 0 is below the picture, sprite 1 is on line 30
    for byte in [0xf0, 1, 0, 100, 30, 1, 0, 100] {
        unit.io_write(OAMDATA, byte);
    }
    for _ in 0..62 {
        for byte in [0xf0, 0, 0, 0] {
            unit.io_write(OAMDATA, byte);
        }
    }
    unit.io_write(MASK, 0x1e);
    run_to(&mut unit, 60, 0);
    assert_eq!(unit.io_read(STATUS) & 0x40, 0x00);
}

#[test]
fn sprites_reach_the_frame_in_front_of_the_background() {
    let mut unit = ppu(0);
    opaque_background(&mut unit);
    unit.io_write(OAMADDR, 0);
    for byte in [30, 1, 0, 100] {
        unit.io_write(OAMDATA, byte);
    }
    for _ in 0..63 {
        for byte in [0xf0, 0, 0, 0] {
            unit.io_write(OAMDATA, byte);
        }
    }
    unit.io_write(MASK, 0x1e);
    run_to(&mut unit, 240, 0);
    let rgb = unit.draw_screen();
    // colour 0x2a is (76, 208, 32); the sprite covers rows 31 to 38
    let inside = (33 * 256 + 103) * 3;
    assert_eq!(&rgb[inside..inside + 3], &[76, 208, 32]);
    let outside = (33 * 256 + 120) * 3;
    assert_eq!(&rgb[outside..outside + 3], &[152, 34, 32]);
    let below = (40 * 256 + 103) * 3;
    assert_eq!(&rgb[below..below + 3], &[152, 34, 32]);
}

#[test]
fn a_ninth_sprite_on_a_line_raises_the_overflow_flag() {
    let mut unit = ppu(0);
    unit.io_write(OAMADDR, 0);
    for _ in 0..9 {
        for byte in [50, 0, 0, 0] {
            unit.io_write(OAMDATA, byte);
        }
    }
    for _ in 0..55 {
        for byte in [0xf0, 0, 0, 0] {
            unit.io_write(OAMDATA, byte);
        }
    }
    unit.io_write(MASK, 0x18);
    run_to(&mut unit, 50, 0);
    assert_eq!(unit.io_read(STATUS) & 0x20, 0x00);
    run_to(&mut unit, 51, 0);
    assert_eq!(unit.io_read(STATUS) & 0x20, 0x20);
}

#[test]
fn eight_sprites_on_a_line_raise_no_overflow() {
    let mut unit = ppu(0);
    unit.io_write(OAMADDR, 0);
    for _ in 0..8 {
        for byte in [50, 0, 0, 0] {
            unit.io_write(OAMDATA, byte);
        }
    }
    for _ in 0..56 {
        for byte in [0xf0, 0, 0, 0] {
            unit.io_write(OAMDATA, byte);
        }
    }
    unit.io_write(MASK, 0x18);
    run_to(&mut unit, 240, 0);
    assert_eq!(unit.io_read(STATUS) & 0x20, 0x00);
}
