use rnes::rom::{MirrorMode, NesError, Rom};

fn image(prg_banks: u8, chr_banks: u8, flags6: u8, flags7: u8) -> Vec<u8> {
    let mut bytes = vec![0x4e, 0x45, 0x53, 0x1a, prg_banks, chr_banks, flags6, flags7];
    bytes.resize(16, 0);
    for i in 0..(prg_banks as usize * 16384) {
        bytes.push((i % 251) as u8);
    }
    for i in 0..(chr_banks as usize * 8192) {
        bytes.push((i % 241) as u8);
    }
    bytes
}

#[test]
fn rom_new_reads_header_and_banks() {
    let rom = Rom::new(&image(2, 1, 0x21, 0x40)).unwrap();
    assert_eq!(rom.prg_banks(), 2);
    assert_eq!(rom.chr_banks(), 1);
    assert_eq!(rom.mapper(), 0x42);
    assert_eq!(rom.mirroring(), MirrorMode::Vertical);
    assert_eq!(rom.read_prg(0), 0);
    assert_eq!(rom.read_prg(300), (300 % 251) as u8);
    assert_eq!(rom.read_prg(32767), (32767 % 251) as u8);
    assert_eq!(rom.read_chr(8191), (8191 % 241) as u8);
}

#[test]
fn rom_new_ignores_trailing_bytes() {
    let mut bytes = image(1, 0, 0, 0);
    bytes.extend_from_slice(&[1, 2, 3]);
    let rom = Rom::new(&bytes).unwrap();
    assert_eq!(rom.prg_banks(), 1);
    assert_eq!(rom.chr_banks(), 0);
}

#[test]
fn rom_new_rejects_bad_magic() {
    let mut bytes = image(1, 1, 0, 0);
    bytes[3] = 0x1b;
    assert_eq!(Rom::new(&bytes).err(), Some(NesError::InvalidRom));
}

#[test]
fn rom_new_rejects_truncated_image() {
    let mut bytes = image(1, 1, 0, 0);
    bytes.pop();
    assert_eq!(Rom::new(&bytes).err(), Some(NesError::InvalidRom));
}

#[test]
fn rom_new_rejects_short_header() {
    assert_eq!(Rom::new(&[0x4e, 0x45, 0x53, 0x1a, 0, 0]).err(), Some(NesError::InvalidRom));
    assert_eq!(Rom::new(&[]).err(), Some(NesError::InvalidRom));
}

#[test]
fn rom_mirroring_follows_flags() {
    assert_eq!(Rom::new(&image(1, 0, 0x00, 0)).unwrap().mirroring(), MirrorMode::Horizontal);
    assert_eq!(Rom::new(&image(1, 0, 0x01, 0)).unwrap().mirroring(), MirrorMode::Vertical);
    assert_eq!(Rom::new(&image(1, 0, 0x08, 0)).unwrap().mirroring(), MirrorMode::FourScreen);
    assert_eq!(Rom::new(&image(1, 0, 0x09, 0)).unwrap().mirroring(), MirrorMode::FourScreen);
}

#[test]
fn rom_reads_past_the_end_give_ff() {
    let rom = Rom::new(&image(1, 1, 0, 0)).unwrap();
    assert_eq!(rom.read_prg(16384), 0xff);
    assert_eq!(rom.read_chr(8192), 0xff);
}
