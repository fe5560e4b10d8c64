use nespump::ppu::{background_palette_index, parse_sprite, parse_tile};
use nespump::rom::RomError;
use nespump::Nes;

fn image(prg: u8, chr: u8) -> Vec<u8> {
    let mut rom = vec![0x4e, 0x45, 0x53, 0x1a, prg, chr, 0, 0, 0, 0, 0, 0, 0, 0, 0, 0];
    for i in 0..(prg as usize * 0x4000) {
        rom.push((i % 251) as u8);
    }
    for i in 0..(chr as usize * 0x2000) {
        rom.push((i % 13) as u8);
    }
    rom
}

#[test]
fn loads_one_bank_at_c000() {
    let mut rom = image(1, 1);
    rom[16 + 0x3ffc] = 0x00;
    rom[16 + 0x3ffd] = 0xc0;
    let mut nes = Nes::new(&rom).expect("valid image");
    assert_eq!(nes.pc, 0xc000);
    assert_eq!(nes.read(0xc001), 1);
    assert_eq!(nes.read(0x8001), 0);
    assert_eq!(nes.ppu_read(0x0005), 5);
    assert_eq!(nes.s, 0xfd);
    assert!(nes.interrupt_disable);
    assert_eq!(nes.cycles, 0);
}

#[test]
fn loads_two_banks_at_8000() {
    let mut rom = image(2, 0);
    rom[16 + 0x7ffc] = 0x34;
    rom[16 + 0x7ffd] = 0x82;
    let mut nes = Nes::new(&rom).expect("valid image");
    assert_eq!(nes.pc, 0x8234);
    assert_eq!(nes.read(0x8000), 0);
    assert_eq!(nes.read(0x80fb), 0);
    assert_eq!(nes.read(0x80fc), 1);
}

#[test]
fn rejects_bad_magic() {
    let mut rom = image(1, 0);
    rom[3] = 0x1b;
    assert_eq!(Nes::new(&rom).err(), Some(RomError::InvalidMagic));
}

#[test]
fn rejects_large_prg() {
    let mut rom = image(1, 0);
    rom[4] = 3;
    assert_eq!(Nes::new(&rom).err(), Some(RomError::UnsupportedPrgSize(3)));
}

#[test]
fn rejects_large_chr() {
    let mut rom = image(1, 0);
    rom[5] = 2;
    assert_eq!(Nes::new(&rom).err(), Some(RomError::UnsupportedChrSize(2)));
}

#[test]
fn rejects_truncated() {
    let mut rom = image(1, 1);
    rom.pop();
    assert_eq!(Nes::new(&rom).err(), Some(RomError::Truncated));
    assert_eq!(Nes::new(&vec![0x4e, 0x45]).err(), Some(RomError::Truncated));
}

#[test]
fn tile_planes_combine() {
    let mut data = [0u8; 16];
    data[0] = 0b1010_0000;
    data[8] = 0b1100_0000;
    let tile = parse_tile(data);
    assert_eq!(tile.data.len(), 64);
    assert_eq!(tile.data[0], 3);
    assert_eq!(tile.data[1], 2);
    assert_eq!(tile.data[2], 1);
    assert_eq!(tile.data[3], 0);
    assert_eq!(tile.data[8], 0);
}

#[test]
fn sprite_fields() {
    let s = parse_sprite([0x10, 0x22, 0xe3, 0x40]);
    assert_eq!(s.r, 0x10);
    assert_eq!(s.pattern_table_index, 0x22);
    assert_eq!(s.palette_index, 3);
    assert!(s.priority && s.h_flip && s.v_flip);
    assert_eq!(s.c, 0x40);
}

#[test]
fn attribute_quadrants() {
    let attr = 0b11_10_01_00;
    assert_eq!(background_palette_index(attr, 0, 0), 0);
    assert_eq!(background_palette_index(attr, 1, 2), 1);
    assert_eq!(background_palette_index(attr, 2, 1), 2);
    assert_eq!(background_palette_index(attr, 7, 7), 3);
}

#[test]
fn ppuctrl_getters() {
    let mut nes = Nes::default();
    nes.write(0x2000, 0x3b);
    assert_eq!(nes.get_bg_pattern_table_base(), 0x1000);
    assert_eq!(nes.get_sprite_pattern_table_base(), 0x1000);
    assert_eq!(nes.get_name_table_base(), 0x2c00);
    assert_eq!(nes.get_attribute_table_base(), 0x2fc0);
    assert!(nes.is_in_8x16_mode());
    assert!(nes.sprite_is_enabled());
    assert!(nes.background_is_enabled());
}
