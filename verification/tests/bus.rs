use rnes::bus::Bus;
use rnes::controller::Button;
use rnes::mapper::create_mapper;
use rnes::ricoh2c02::Ricoh2C02;
use rnes::rom::Rom;

/// A bus around an NROM cartridge with pattern RAM whose program byte at
/// offset `i` is `i % 256`.
fn bus(flags6: u8) -> Bus {
    let mut bytes = vec![0x4e, 0x45, 0x53, 0x1a, 2, 0, flags6, 0];
    bytes.resize(16, 0);
    for i in 0..32768 {
        bytes.push((i % 256) as u8);
    }
    Bus::new(Ricoh2C02::new(create_mapper(Rom::new(&bytes).unwrap()).unwrap()))
}

fn ticks(bus: &mut Bus, n: usize) {
    for _ in 0..n {
        bus.tick();
    }
}

/// Cycles from power-on after which the picture unit stands at dot 0 of
/// line 240, its idle line.
const IDLE: usize = 241 * 341 / 3 + 1;

#[test]
fn ram_reads_back_what_was_written() {
    let mut bus = bus(0);
    for address in [0x0000u16, 0x0001, 0x00ff, 0x0100, 0x07ff] {
        bus.write(address, (address % 251) as u8 + 1);
    }
    for address in [0x0000u16, 0x0001, 0x00ff, 0x0100, 0x07ff] {
        assert_eq!(bus.read(address), (address % 251) as u8 + 1);
    }
}

#[test]
fn ram_shows_four_times_below_0x2000() {
    let mut bus = bus(0);
    bus.write(0x0123, 0x5a);
    assert_eq!(bus.read(0x0123 + 0x0800), 0x5a);
    assert_eq!(bus.read(0x0123 + 0x1000), 0x5a);
    assert_eq!(bus.read(0x0123 + 0x1800), 0x5a);
    bus.write(0x1fff, 0xa5);
    assert_eq!(bus.read(0x07ff), 0xa5);
    assert_eq!(bus.read(0x0fff), 0xa5);
}

#[test]
fn ram_starts_cleared() {
    let mut bus = bus(0);
    assert_eq!(bus.read(0x0000), 0);
    assert_eq!(bus.read(0x07ff), 0);
}

#[test]
fn ppu_registers_repeat_every_eight_bytes() {
    let mut bus = bus(0);
    // 0x3ffe is the address register, 0x2017 the data port
    bus.write(0x3ffe, 0x21);
    bus.write(0x200e, 0x00);
    bus.write(0x2017, 0x99);
    bus.write(0x2006, 0x21);
    bus.write(0x2006, 0x00);
    bus.read(0x2007);
    assert_eq!(bus.read(0x3fff), 0x99);
}

#[test]
fn ports_that_are_not_modelled_read_0_and_swallow_writes() {
    let mut bus = bus(0);
    for address in [0x4000u16, 0x4013, 0x4015, 0x4017, 0x4018, 0x401f] {
        bus.write(address, 0xff);
        assert_eq!(bus.read(address), 0);
    }
    assert_eq!(bus.read(0x4014), 0);
}

#[test]
fn cartridge_answers_from_0x4020() {
    let mut bus = bus(0);
    assert_eq!(bus.read(0x4020), 0xff);
    assert_eq!(bus.read(0x8000), 0x00);
    assert_eq!(bus.read(0x80fe), 0xfe);
    assert_eq!(bus.read(0xffff), 0xff);
    bus.write(0x6000, 0x42);
    assert_eq!(bus.read(0x6000), 0x42);
}

#[test]
fn controller_port_is_0x4016() {
    let mut bus = bus(0);
    bus.set_button(Button::A, true);
    bus.set_button(Button::B, true);
    bus.write(0x4016, 1);
    bus.write(0x4016, 0);
    assert_eq!(bus.read(0x4016) & 1, 1);
    assert_eq!(bus.read(0x4016) & 1, 1);
    assert_eq!(bus.read(0x4016) & 1, 0);
    bus.set_buttons(0x80);
    bus.write(0x4016, 1);
    bus.write(0x4016, 0);
    for _ in 0..7 {
        assert_eq!(bus.read(0x4016) & 1, 0);
    }
    assert_eq!(bus.read(0x4016) & 1, 1);
}

#[test]
fn reads_and_writes_take_no_cycle_of_their_own() {
    let mut bus = bus(0);
    bus.write(0x0000, 1);
    bus.read(0x0000);
    bus.read(0x2002);
    bus.write(0x8000, 1);
    assert_eq!(bus.cycles(), 0);
}

#[test]
fn a_cycle_is_three_dots() {
    let mut bus = bus(0);
    // the vertical blank begins with the 82524th dot
    ticks(&mut bus, 27507);
    assert_eq!(bus.cycles(), 27507);
    assert!(!bus.should_redraw());
    bus.tick();
    assert!(bus.should_redraw());
    assert!(!bus.should_redraw());
    assert_eq!(bus.read(0x2002) & 0x80, 0x80);
}

#[test]
fn interrupt_line_follows_the_picture_unit() {
    let mut bus = bus(0);
    bus.write(0x2000, 0x80);
    ticks(&mut bus, 27507);
    assert!(!bus.should_nmi());
    bus.tick();
    assert!(bus.should_nmi());
    assert!(!bus.should_nmi());
}

#[test]
fn dma_takes_513_cycles_from_an_even_cycle() {
    let mut bus = bus(0);
    ticks(&mut bus, IDLE + IDLE % 2);
    let before = bus.cycles();
    assert_eq!(before % 2, 0);
    bus.write(0x4014, 0x02);
    assert_eq!(bus.cycles() - before, 513);
}

#[test]
fn dma_takes_514_cycles_from_an_odd_cycle() {
    let mut bus = bus(0);
    ticks(&mut bus, IDLE + 1 - IDLE % 2);
    let before = bus.cycles();
    assert_eq!(before % 2, 1);
    bus.write(0x4014, 0x02);
    assert_eq!(bus.cycles() - before, 514);
}

#[test]
fn dma_takes_as_long_wherever_the_picture_unit_stands() {
    let mut bus = bus(0);
    bus.write(0x4014, 0x07);
    assert_eq!(bus.cycles(), 513);
    bus.write(0x4014, 0x07);
    assert_eq!(bus.cycles(), 513 + 514);
}

#[test]
fn dma_copies_a_page_of_ram() {
    let mut bus = bus(0);
    for i in 0..256u16 {
        bus.write(0x0200 + i, (i as u8) ^ 0x5a);
    }
    ticks(&mut bus, IDLE);
    bus.write(0x2003, 0);
    bus.write(0x4014, 0x02);
    for i in 0..256u16 {
        bus.write(0x2003, i as u8);
        assert_eq!(bus.read(0x2004), (i as u8) ^ 0x5a);
    }
}

#[test]
fn dma_starts_at_the_sprite_address_and_wraps() {
    let mut bus = bus(0);
    for i in 0..256u16 {
        bus.write(0x0300 + i, i as u8);
    }
    ticks(&mut bus, IDLE);
    bus.write(0x2003, 0xf0);
    bus.write(0x4014, 0x03);
    // the sprite address is back where it was
    assert_eq!(bus.read(0x2004), 0);
    bus.write(0x2003, 0xff);
    assert_eq!(bus.read(0x2004), 0x0f);
    bus.write(0x2003, 0x00);
    assert_eq!(bus.read(0x2004), 0x10);
    bus.write(0x2003, 0xef);
    assert_eq!(bus.read(0x2004), 0xff);
}

#[test]
fn dma_copies_from_ram_mirrors_and_from_the_cartridge() {
    let mut bus = bus(0);
    for i in 0..256u16 {
        bus.write(0x0100 + i, 0xff - i as u8);
    }
    ticks(&mut bus, IDLE);
    bus.write(0x2003, 0);
    // page 0x09 is page 0x01
    bus.write(0x4014, 0x09);
    bus.write(0x2003, 3);
    assert_eq!(bus.read(0x2004), 0xfc);
    bus.write(0x2003, 0);
    bus.write(0x4014, 0x80);
    bus.write(0x2003, 3);
    assert_eq!(bus.read(0x2004), 3);
}

#[test]
fn dma_copies_a_page_while_the_picture_is_drawn() {
    let mut bus = bus(0);
    for i in 0..256u16 {
        bus.write(0x0200 + i, (i as u8).wrapping_mul(3));
    }
    // rendering on, and the transfer made across lines 10 to 14
    bus.write(0x2001, 0x18);
    ticks(&mut bus, 11 * 341 / 3 + 20);
    bus.write(0x2003, 0x40);
    bus.write(0x4014, 0x02);
    // the sprite address is where it was
    assert_eq!(bus.read(0x2004), 0);
    for i in 0..256u16 {
        bus.write(0x2003, (0x40 + i) as u8);
        assert_eq!(bus.read(0x2004), (i as u8).wrapping_mul(3));
    }
}

#[test]
fn dma_leaves_ram_alone() {
    let mut bus = bus(0);
    bus.write(0x0200, 0x11);
    bus.write(0x0000, 0x22);
    ticks(&mut bus, IDLE);
    bus.write(0x4014, 0x02);
    assert_eq!(bus.read(0x0200), 0x11);
    assert_eq!(bus.read(0x0000), 0x22);
}

#[test]
fn screen_comes_from_the_picture_unit() {
    let bus = bus(0);
    let rgb = bus.draw_screen();
    assert_eq!(rgb.len(), 256 * 240 * 3);
    assert_eq!(&rgb[0..3], &[84, 84, 84]);
}
