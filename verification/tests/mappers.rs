use rnes::mapper::{create_mapper, Mapper};
use rnes::mappers::cnrom::Cnrom;
use rnes::mappers::mmc1::Mmc1;
use rnes::mappers::nrom::Nrom;
use rnes::mappers::unrom::Unrom;
use rnes::rom::{MirrorMode, NesError, Rom};

/// An image whose program byte at offset `i` is 16 times its bank plus
/// the offset within the bank modulo 7, and whose pattern byte at offset `i` is 0x80 plus the number of
/// its bank.
fn rom(mapper: u8, prg_banks: u8, chr_banks: u8, flags6: u8) -> Rom {
    let mut bytes = vec![
        0x4e,
        0x45,
        0x53,
        0x1a,
        prg_banks,
        chr_banks,
        (mapper << 4) | flags6,
        mapper & 0xf0,
    ];
    bytes.resize(16, 0);
    for i in 0..(prg_banks as usize * 16384) {
        bytes.push((i / 16384) as u8 * 16 + (i % 16384 % 7) as u8);
    }
    for i in 0..(chr_banks as usize * 8192) {
        bytes.push(0x80 + (i / 8192) as u8);
    }
    Rom::new(&bytes).unwrap()
}

fn load(board: &mut Mmc1, address: u16, value: u8) {
    for bit in 0..5 {
        board.write_prg(address, (value >> bit) & 1);
    }
}

#[test]
fn create_mapper_builds_the_four_boards() {
    assert!(matches!(create_mapper(rom(0, 1, 1, 0)), Ok(Mapper::Nrom(_))));
    assert!(matches!(create_mapper(rom(1, 2, 0, 0)), Ok(Mapper::Mmc1(_))));
    assert!(matches!(create_mapper(rom(2, 4, 0, 0)), Ok(Mapper::Unrom(_))));
    assert!(matches!(create_mapper(rom(3, 2, 4, 0)), Ok(Mapper::Cnrom(_))));
}

#[test]
fn create_mapper_refuses_other_boards() {
    assert!(matches!(create_mapper(rom(4, 1, 1, 0)), Err(NesError::UnsupportedMapper(4))));
    assert!(matches!(create_mapper(rom(0x42, 1, 1, 0)), Err(NesError::UnsupportedMapper(0x42))));
}

#[test]
fn every_board_answers_from_0x4020() {
    let board = create_mapper(rom(0, 1, 1, 0)).unwrap();
    assert!(!board.in_range(0x401f));
    assert!(board.in_range(0x4020));
    assert!(board.in_range(0xffff));
    assert!(Nrom::new(rom(0, 1, 1, 0)).in_range(0x6000));
    assert!(!Unrom::new(rom(2, 1, 0, 0)).in_range(0x4016));
}

#[test]
fn nrom_shows_a_single_bank_twice() {
    let board = Nrom::new(rom(0, 1, 1, 0));
    assert_eq!(board.read_prg(0x8000), 0);
    assert_eq!(board.read_prg(0x8003), 3);
    assert_eq!(board.read_prg(0xc003), 3);
    assert_eq!(board.read_prg(0xffff), (16383 % 7) as u8);
    assert_eq!(board.read_prg(0xbfff), (16383 % 7) as u8);
}

#[test]
fn nrom_shows_two_banks_in_order() {
    let board = Nrom::new(rom(0, 2, 1, 0));
    assert_eq!(board.read_prg(0x8001), 1);
    assert_eq!(board.read_prg(0xc000), 16);
}

#[test]
fn nrom_reads_ff_below_the_work_ram() {
    let board = Nrom::new(rom(0, 1, 1, 0));
    assert_eq!(board.read_prg(0x4020), 0xff);
    assert_eq!(board.read_prg(0x5fff), 0xff);
}

#[test]
fn nrom_work_ram_keeps_what_is_written() {
    let mut board = Nrom::new(rom(0, 1, 1, 0));
    assert_eq!(board.read_prg(0x6000), 0);
    board.write_prg(0x6000, 0x12);
    board.write_prg(0x7fff, 0x34);
    assert_eq!(board.read_prg(0x6000), 0x12);
    assert_eq!(board.read_prg(0x7fff), 0x34);
    board.write_prg(0x8000, 0x56);
    assert_eq!(board.read_prg(0x8000), 0);
}

#[test]
fn nrom_has_pattern_ram_only_without_pattern_rom() {
    let mut with_ram = Nrom::new(rom(0, 1, 0, 0));
    with_ram.write_chr(0x1234, 0x77);
    assert_eq!(with_ram.read_chr(0x1234), 0x77);
    let mut with_rom = Nrom::new(rom(0, 1, 1, 0));
    with_rom.write_chr(0x1234, 0x77);
    assert_eq!(with_rom.read_chr(0x1234), 0x80);
}

#[test]
fn nrom_mirroring_comes_from_the_image() {
    assert_eq!(Nrom::new(rom(0, 1, 1, 1)).mirroring(), MirrorMode::Vertical);
    assert_eq!(Nrom::new(rom(0, 1, 1, 0)).mirroring(), MirrorMode::Horizontal);
}

#[test]
fn unrom_switches_the_low_bank_and_fixes_the_last() {
    let mut board = Unrom::new(rom(2, 4, 0, 0));
    assert_eq!(board.read_prg(0x8000), 0);
    assert_eq!(board.read_prg(0xc000), 3 * 16);
    board.write_prg(0x8000, 2);
    assert_eq!(board.read_prg(0x8000), 2 * 16);
    assert_eq!(board.read_prg(0xbfff), 2 * 16 + (16383 % 7) as u8);
    assert_eq!(board.read_prg(0xc000), 3 * 16);
    board.write_prg(0xffff, 0xf1);
    assert_eq!(board.read_prg(0x8000), 16);
}

#[test]
fn unrom_ignores_writes_below_the_rom_window() {
    let mut board = Unrom::new(rom(2, 4, 0, 0));
    board.write_prg(0x8000, 1);
    board.write_prg(0x6000, 2);
    board.write_prg(0x7fff, 3);
    assert_eq!(board.read_prg(0x8000), 16);
    assert_eq!(board.read_prg(0x6000), 0xff);
}

#[test]
fn unrom_reads_ff_from_a_bank_that_the_image_lacks() {
    let mut board = Unrom::new(rom(2, 2, 0, 0));
    board.write_prg(0x8000, 5);
    assert_eq!(board.read_prg(0x8000), 0xff);
    assert_eq!(board.read_prg(0xc000), 16);
}

#[test]
fn unrom_pattern_ram_keeps_what_is_written() {
    let mut board = Unrom::new(rom(2, 2, 0, 0));
    board.write_chr(0, 1);
    board.write_chr(0x1fff, 2);
    assert_eq!(board.read_chr(0), 1);
    assert_eq!(board.read_chr(0x1fff), 2);
    assert_eq!(board.read_chr(1), 0);
}

#[test]
fn cnrom_switches_the_pattern_bank() {
    let mut board = Cnrom::new(rom(3, 2, 4, 0));
    assert_eq!(board.read_chr(0), 0x80);
    board.write_prg(0x8000, 3);
    assert_eq!(board.read_chr(0), 0x83);
    assert_eq!(board.read_chr(0x1fff), 0x83);
    board.write_prg(0xc000, 0xfe);
    assert_eq!(board.read_chr(0), 0x82);
    board.write_prg(0x7000, 1);
    assert_eq!(board.read_chr(0), 0x82);
    board.write_chr(0, 0x11);
    assert_eq!(board.read_chr(0), 0x82);
}

#[test]
fn cnrom_maps_its_program_like_nrom() {
    let one = Cnrom::new(rom(3, 1, 1, 0));
    assert_eq!(one.read_prg(0xc005), 5);
    assert_eq!(one.read_prg(0x7fff), 0xff);
    let two = Cnrom::new(rom(3, 2, 1, 0));
    assert_eq!(two.read_prg(0xc000), 16);
    let none = Cnrom::new(rom(3, 0, 1, 0));
    assert_eq!(none.read_prg(0x8000), 0xff);
}

#[test]
fn cnrom_reads_ff_from_a_pattern_bank_that_the_image_lacks() {
    let mut board = Cnrom::new(rom(3, 1, 2, 0));
    board.write_prg(0x8000, 2);
    assert_eq!(board.read_chr(0), 0xff);
}

#[test]
fn mmc1_starts_with_the_last_bank_fixed_high() {
    let board = Mmc1::new(rom(1, 4, 0, 0));
    assert_eq!(board.read_prg(0x8000), 0);
    assert_eq!(board.read_prg(0xc000), 3 * 16);
    assert_eq!(board.mirroring(), MirrorMode::Horizontal);
}

#[test]
fn mmc1_commits_on_the_fifth_write_to_the_register_of_its_address() {
    let mut board = Mmc1::new(rom(1, 4, 0, 0));
    // four bits of 0b00010 go in through any address: nothing changes yet
    board.write_prg(0x8000, 0);
    board.write_prg(0xa000, 1);
    board.write_prg(0xc000, 0);
    board.write_prg(0x8000, 0);
    assert_eq!(board.read_prg(0x8000), 0);
    // the fifth goes to the program bank register
    board.write_prg(0xe000, 0);
    assert_eq!(board.read_prg(0x8000), 2 * 16);
    assert_eq!(board.read_prg(0xc000), 3 * 16);
    assert_eq!(board.mirroring(), MirrorMode::Horizontal);
}

#[test]
fn mmc1_control_sets_mirroring() {
    let mut board = Mmc1::new(rom(1, 4, 0, 0));
    load(&mut board, 0x8000, 0x0e);
    assert_eq!(board.mirroring(), MirrorMode::Vertical);
    load(&mut board, 0x9fff, 0x0f);
    assert_eq!(board.mirroring(), MirrorMode::Horizontal);
    load(&mut board, 0x8000, 0x0c);
    assert_eq!(board.mirroring(), MirrorMode::OneScreen);
    load(&mut board, 0x8000, 0x0d);
    assert_eq!(board.mirroring(), MirrorMode::OneScreen);
}

#[test]
fn mmc1_pattern_registers_leave_program_and_mirroring_alone() {
    let mut board = Mmc1::new(rom(1, 4, 0, 0));
    load(&mut board, 0xa000, 0x1f);
    load(&mut board, 0xc000, 0x1f);
    assert_eq!(board.read_prg(0x8000), 0);
    assert_eq!(board.read_prg(0xc000), 3 * 16);
    assert_eq!(board.mirroring(), MirrorMode::Horizontal);
}

#[test]
fn mmc1_reset_write_empties_the_shift_register_and_forces_the_mode() {
    let mut board = Mmc1::new(rom(1, 4, 0, 0));
    // 32 KiB mode, bank pair 2
    load(&mut board, 0x8000, 0x03);
    load(&mut board, 0xe000, 0x02);
    assert_eq!(board.read_prg(0x8000), 2 * 16);
    assert_eq!(board.read_prg(0xc000), 3 * 16);
    // three bits in, then a reset: the bits are gone and the last bank is
    // fixed high again, with the other control bits as they were
    board.write_prg(0xe000, 1);
    board.write_prg(0xe000, 1);
    board.write_prg(0xe000, 1);
    board.write_prg(0x8000, 0x80);
    assert_eq!(board.read_prg(0x8000), 2 * 16);
    assert_eq!(board.read_prg(0xc000), 3 * 16);
    assert_eq!(board.mirroring(), MirrorMode::Horizontal);
    // a full load after the reset is not disturbed by the three bits
    load(&mut board, 0xe000, 0x01);
    assert_eq!(board.read_prg(0x8000), 16);
}

#[test]
fn mmc1_reset_write_is_not_shifted_in() {
    let mut board = Mmc1::new(rom(1, 4, 0, 0));
    board.write_prg(0x8000, 0x81);
    load(&mut board, 0xe000, 0x02);
    assert_eq!(board.read_prg(0x8000), 2 * 16);
}

#[test]
fn mmc1_program_modes() {
    let mut board = Mmc1::new(rom(1, 4, 0, 0));
    load(&mut board, 0xe000, 0x01);
    // mode 3: switched low, last bank high
    assert_eq!(board.read_prg(0x8000), 16);
    assert_eq!(board.read_prg(0xc000), 3 * 16);
    // mode 2: first bank low, switched high
    load(&mut board, 0x8000, 0x0b);
    assert_eq!(board.read_prg(0x8000), 0);
    assert_eq!(board.read_prg(0xc000), 16);
    // modes 0 and 1: 32 KiB, low bit of the bank ignored
    load(&mut board, 0xe000, 0x03);
    load(&mut board, 0x8000, 0x03);
    assert_eq!(board.read_prg(0x8000), 2 * 16);
    assert_eq!(board.read_prg(0xc000), 3 * 16);
    load(&mut board, 0x8000, 0x07);
    assert_eq!(board.read_prg(0x8000), 2 * 16);
}

#[test]
fn mmc1_work_ram_and_pattern_ram() {
    let mut board = Mmc1::new(rom(1, 2, 0, 0));
    board.write_prg(0x6123, 0x45);
    assert_eq!(board.read_prg(0x6123), 0x45);
    assert_eq!(board.read_prg(0x5000), 0xff);
    board.write_chr(0x0fff, 0x67);
    assert_eq!(board.read_chr(0x0fff), 0x67);
    // a write to the work RAM is no serial write
    board.write_prg(0x6000, 0x01);
    board.write_prg(0x6000, 0x01);
    board.write_prg(0x6000, 0x01);
    board.write_prg(0x6000, 0x01);
    board.write_prg(0x6000, 0x01);
    assert_eq!(board.read_prg(0x8000), 0);
    assert_eq!(board.mirroring(), MirrorMode::Horizontal);
}

#[test]
fn mapper_forwards_to_its_board() {
    let mut board = create_mapper(rom(2, 4, 0, 1)).unwrap();
    assert_eq!(board.mirroring(), MirrorMode::Vertical);
    board.write_prg(0x8000, 1);
    assert_eq!(board.read_prg(0x8000), 16);
    board.write_chr(5, 9);
    assert_eq!(board.read_chr(5), 9);
}
