use nespump::Nes;

#[test]
fn oam_dma_even_cycle_start() {
    let mut nes = Nes::default();
    for i in 0..0x100u16 {
        nes.write(0x0200 + i, (i as u8).wrapping_mul(3).wrapping_add(1));
    }
    nes.cycles = 100;
    nes.write(0x4014, 0x02);
    for i in 0..0x100usize {
        assert_eq!(nes.oam[i], nes.ram[0x200 + i]);
    }
    assert_eq!(nes.cycles, 613);
}

#[test]
fn oam_dma_odd_cycle_start() {
    let mut nes = Nes::default();
    for i in 0..0x100u16 {
        nes.write(0x0200 + i, i as u8);
    }
    nes.cycles = 101;
    nes.write(0x4014, 0x02);
    for i in 0..0x100usize {
        assert_eq!(nes.oam[i], i as u8);
    }
    assert_eq!(nes.cycles, 615);
}

#[test]
fn oam_dma_starts_at_oamaddr() {
    let mut nes = Nes::default();
    for i in 0..0x100u16 {
        nes.write(0x0300 + i, i as u8);
    }
    nes.write(0x2003, 0x10);
    nes.write(0x4014, 0x03);
    assert_eq!(nes.oam[0x10], 0x00);
    assert_eq!(nes.oam[0xff], 0xef);
    assert_eq!(nes.oam[0x00], 0xf0);
    assert_eq!(nes.oam[0x0f], 0xff);
}

#[test]
fn controller_strobe_protocol() {
    let mut nes = Nes::default();
    let pressed = [true, false, true, true, false, false, true, false];
    for (i, &p) in pressed.iter().enumerate() {
        if p {
            nes.key_down(i);
        }
    }
    nes.write(0x4016, 1);
    nes.write(0x4016, 0);
    for &p in pressed.iter() {
        assert_eq!(nes.read(0x4016), p as u8);
    }
    assert_eq!(nes.read(0x4016), pressed[0] as u8);
}

#[test]
fn controller_strobed_repeats_first_button() {
    let mut nes = Nes::default();
    nes.key_down(0);
    nes.write(0x4016, 1);
    for _ in 0..3 {
        assert_eq!(nes.read(0x4016), 1);
    }
    nes.key_up(0);
    assert_eq!(nes.read(0x4016), 0);
    assert_eq!(nes.apu_and_io_regs[0x16], 1);
}

#[test]
fn controller_register_keeps_low_three_bits() {
    let mut nes = Nes::default();
    nes.write(0x4016, 0xfe);
    assert_eq!(nes.apu_and_io_regs[0x16], 0x06);
    assert!(!nes.strobe_mode);
}

#[test]
fn ram_mirror() {
    let mut nes = Nes::default();
    nes.write(0x0123, 0xab);
    assert_eq!(nes.read(0x0923), 0xab);
    assert_eq!(nes.read(0x1123), 0xab);
    assert_eq!(nes.read(0x1923), 0xab);
    nes.write(0x1fff, 0x5c);
    assert_eq!(nes.read(0x07ff), 0x5c);
}

#[test]
fn ppu_register_mirror() {
    for i in 0..8u16 {
        let mut a = Nes::default();
        a.write(0x2000 + i, 0x5a);
        let mut b = Nes::default();
        b.write(0x2000 + i, 0x5a);
        assert_eq!(a.read(0x3ff8 + i), b.read(0x2000 + i));
    }
    let mut nes = Nes::default();
    nes.write(0x3ff9, 0x1e);
    assert_eq!(nes.ppu_regs[1], 0x1e);
    assert_eq!(nes.read(0x2001), 0x1e);
}

#[test]
fn ppustatus_read_clears_write_toggle() {
    let mut nes = Nes::default();
    nes.write(0x2006, 0x21);
    assert!(nes.w);
    assert_eq!(nes.read(0x2002), 0xa0);
    assert!(!nes.w);
}

#[test]
fn ppuaddr_and_ppudata_with_read_buffer() {
    let mut nes = Nes::default();
    nes.write(0x2006, 0x21);
    nes.write(0x2006, 0x08);
    assert_eq!(nes.ppuaddr, 0x2108);
    nes.write(0x2007, 0x11);
    nes.write(0x2007, 0x22);
    assert_eq!(nes.ppuaddr, 0x210a);
    nes.write(0x2006, 0x21);
    nes.write(0x2006, 0x08);
    // the first read hands out the stale buffer
    assert_eq!(nes.read(0x2007), 0x00);
    assert_eq!(nes.read(0x2007), 0x11);
    assert_eq!(nes.read(0x2007), 0x22);
}

#[test]
fn ppudata_increment_32() {
    let mut nes = Nes::default();
    nes.write(0x2000, 0x04);
    nes.write(0x2006, 0x20);
    nes.write(0x2006, 0x00);
    nes.write(0x2007, 0x01);
    assert_eq!(nes.ppuaddr, 0x2020);
}

#[test]
fn ppuscroll_x_then_y() {
    let mut nes = Nes::default();
    nes.write(0x2005, 0x12);
    nes.write(0x2005, 0x34);
    assert_eq!(nes.internal_x_scroll, 0x12);
    assert_eq!(nes.internal_y_scroll, 0x34);
    nes.write(0x2000, 0x03);
    assert_eq!(nes.get_x_scroll(), 0x112);
    assert_eq!(nes.get_y_scroll(), 0x134);
}

#[test]
fn oamdata_write_advances_oamaddr() {
    let mut nes = Nes::default();
    nes.write(0x2003, 0xff);
    nes.write(0x2004, 0x77);
    assert_eq!(nes.oam[0xff], 0x77);
    assert_eq!(nes.ppu_regs[3], 0x00);
    nes.write(0x2003, 0xff);
    assert_eq!(nes.read(0x2004), 0x77);
}

#[test]
fn name_table_mirror_folds_into_first_window() {
    let mut nes = Nes::default();
    nes.ppu_write(0x2405, 0x9c);
    assert_eq!(nes.ppu_read(0x2005), 0x9c);
    assert_eq!(nes.ppu_cartridge[0x2005], 0x9c);
    nes.ppu_write(0x3f21, 0x0d);
    assert_eq!(nes.ppu_read(0x3f01), 0x0d);
    assert_eq!(nes.ppu_read(0x7f01), 0x0d);
}

#[test]
fn test_registers_read_zero_and_ignore_writes() {
    let mut nes = Nes::default();
    nes.write(0x4018, 0xff);
    assert_eq!(nes.read(0x4018), 0);
    assert_eq!(nes.read(0x401f), 0);
}

#[test]
fn cartridge_space_is_writable() {
    let mut nes = Nes::default();
    nes.write(0x4020, 0x01);
    nes.write(0xffff, 0x02);
    assert_eq!(nes.read(0x4020), 0x01);
    assert_eq!(nes.read(0xffff), 0x02);
    assert_eq!(nes.read16(0xfffe), 0x0200);
}

#[test]
fn read16_wraps_at_top() {
    let mut nes = Nes::default();
    nes.write(0xffff, 0x34);
    nes.write(0x0000, 0x12);
    assert_eq!(nes.read16(0xffff), 0x1234);
}

#[test]
fn push_then_pop_restores() {
    let mut nes = Nes::default();
    nes.push(0x9e);
    assert_eq!(nes.s, 0xfc);
    assert_eq!(nes.pop(), 0x9e);
    assert_eq!(nes.s, 0xfd);
    nes.push16(0xbeef);
    assert_eq!(nes.ram[0x1fd], 0xbe);
    assert_eq!(nes.ram[0x1fc], 0xef);
    assert_eq!(nes.pop16(), 0xbeef);
    assert_eq!(nes.s, 0xfd);
}

#[test]
fn stack_pointer_wraps_in_page_one() {
    let mut nes = Nes::default();
    nes.s = 0x00;
    nes.push(0x42);
    assert_eq!(nes.ram[0x100], 0x42);
    assert_eq!(nes.s, 0xff);
    assert_eq!(nes.pop(), 0x42);
    assert_eq!(nes.s, 0x00);
}

#[test]
fn strobe_falling_edge_resets_index() {
    let mut nes = Nes::default();
    nes.key_down(0);
    nes.strobe_mode = true;
    nes.current_button = 3;
    nes.write(0x4016, 0);
    assert!(!nes.strobe_mode);
    assert_eq!(nes.current_button, 0);
    assert_eq!(nes.read(0x4016), 1);
}

#[test]
fn strobe_low_write_keeps_walking_index() {
    let mut nes = Nes::default();
    nes.write(0x4016, 1);
    nes.write(0x4016, 0);
    nes.read(0x4016);
    nes.read(0x4016);
    nes.write(0x4016, 0);
    assert_eq!(nes.current_button, 2);
}

#[test]
fn ppuctrl_edge_needs_vblank() {
    let mut nes = Nes::default();
    nes.ppu_regs[2] = 0x00;
    nes.write(0x2000, 0x80);
    assert!(!nes.nmi_pending);
    let mut nes = Nes::default();
    nes.write(0x2000, 0x80);
    assert!(nes.nmi_pending);
    nes.nmi_pending = false;
    nes.write(0x2000, 0x80);
    assert!(!nes.nmi_pending);
}
