use disco5::computer::bus::{Bus, ReadWrite};
use disco5::computer::ppu::PPU;

#[test]
fn ppu_address_latch_and_data_port() {
    let mut bus: Bus = Default::default();
    bus.write(0x2006, 0x21);
    assert!(bus.ppu.ppu_addr_received_first_write);
    bus.write(0x2006, 0x08);
    assert!(!bus.ppu.ppu_addr_received_first_write);
    assert_eq!((bus.ppu.ppu_addr_high, bus.ppu.ppu_addr_low), (0x21, 0x08));
    bus.write(0x2007, 0xaa);
    bus.write(0x2007, 0xbb);
    assert_eq!(bus.ppu.memory[0x2108], 0xaa);
    assert_eq!(bus.ppu.memory[0x2109], 0xbb);
    assert_eq!((bus.ppu.ppu_addr_high, bus.ppu.ppu_addr_low), (0x21, 0x0a));
}

#[test]
fn ppu_data_increment_of_32() {
    let mut bus: Bus = Default::default();
    bus.write(0x2000, 0x04);
    bus.write(0x2006, 0x20);
    bus.write(0x2006, 0x00);
    bus.write(0x2007, 0x01);
    bus.write(0x2007, 0x02);
    assert_eq!(bus.ppu.memory[0x2000], 0x01);
    assert_eq!(bus.ppu.memory[0x2020], 0x02);
    bus.write(0x2006, 0x20);
    bus.write(0x2006, 0x20);
    assert_eq!(bus.read(0x2007), 0x02);
    assert_eq!(bus.ppu.ppu_addr_low, 0x40);
}

#[test]
fn ppu_address_wraps_at_16_bits() {
    let mut bus: Bus = Default::default();
    bus.write(0x2006, 0xff);
    bus.write(0x2006, 0xff);
    bus.write(0x2007, 0x5c);
    assert_eq!(bus.ppu.memory[0x3fff], 0x5c);
    assert_eq!((bus.ppu.ppu_addr_high, bus.ppu.ppu_addr_low), (0x00, 0x00));
}

#[test]
fn ppu_registers_are_mapped() {
    let mut bus: Bus = Default::default();
    assert_eq!(bus.read(0x2002), 0x80);
    bus.write(0x2001, 0x1e);
    bus.write(0x2003, 0x07);
    bus.write(0x2004, 0x99);
    bus.write(0x2005, 0x10);
    assert_eq!(bus.ppu.ppu_mask, 0x1e);
    assert_eq!(bus.ppu.oam_addr, 0x07);
    assert_eq!(bus.read(0x2004), 0x99);
    assert_eq!(bus.ppu.ppu_scroll, 0x10);
    assert!(bus.ppu.ppu_addr_received_first_write);
    assert_eq!(bus.bytes[0x2001], 0);
    bus.write(0x4000, 0x12);
    assert_eq!(bus.read(0x4000), 0x12);
}

#[test]
fn cpu_only_mode_bypasses_ppu() {
    let mut bus: Bus = Default::default();
    bus.cpu_only_mode = true;
    bus.write(0x2000, 0x80);
    assert_eq!(bus.ppu.ppu_ctrl, 0);
    assert_eq!(bus.read(0x2000), 0x80);
    assert_eq!(bus.read(0x2002), 0);
}

#[test]
fn bus_execute_moves_data() {
    let mut bus: Bus = Default::default();
    bus.address_bus = 0x0300;
    bus.data_bus = 0x5a;
    bus.execute(ReadWrite::Write);
    assert_eq!(bus.bytes[0x300], 0x5a);
    bus.data_bus = 0;
    bus.execute(ReadWrite::Read);
    assert_eq!(bus.data_bus, 0x5a);
}

fn sample_ppu() -> PPU {
    let mut ppu = PPU::default();
    // tile 1: row 0 has low plane $F0, high plane $CC
    ppu.memory[16] = 0xf0;
    ppu.memory[16 + 8] = 0xcc;
    // nametable: tile (1, 0) uses tile 1
    ppu.memory[0x2001] = 1;
    // attribute byte for the top-left 32x32 area: top-left quadrant subpalette 2
    ppu.memory[0x23c0] = 0x02;
    ppu.memory[0x3f00] = 0x0f;
    ppu.memory[0x3f09] = 0x01;
    ppu.memory[0x3f0a] = 0x02;
    ppu.memory[0x3f0b] = 0x03;
    ppu
}

#[test]
fn render_frame_composes_tiles() {
    let ppu = sample_ppu();
    let frame = ppu.render_frame();
    assert_eq!(frame.len(), 256 * 240);
    // pixels 8..16 of row 0: high/low bits give colors 3,3,1,1,2,2,0,0
    let background = (0x05, 0x05, 0x05);
    let c1 = (0x00, 0x3d, 0xa6);
    let c2 = (0x00, 0x12, 0xb0);
    let c3 = (0x44, 0x00, 0x96);
    assert_eq!(&frame[8..16], &[c3, c3, c1, c1, c2, c2, background, background]);
    assert_eq!(frame[0], background);
    assert_eq!(frame[256 + 8], background);
    assert_eq!(frame[239 * 256 + 255], background);
}

#[test]
fn render_tile_uses_selected_pattern_table() {
    let mut ppu = sample_ppu();
    ppu.ppu_ctrl = 0x10;
    ppu.memory[0x1000 + 16] = 0xff;
    let mut buffer = vec![(0u8, 0u8, 0u8); 256 * 240];
    ppu.render_tile(&mut buffer, 8, 0);
    assert!(buffer[8..16].iter().all(|p| *p == (0x00, 0x3d, 0xa6)));
    assert_eq!(buffer[16], (0, 0, 0));
    ppu.render_line(&mut buffer, 1);
    assert_eq!(buffer[256], (0x05, 0x05, 0x05));
}

#[test]
fn attribute_quadrants_select_subpalettes() {
    let mut ppu = PPU::default();
    ppu.memory[0] = 0x80;
    // every nametable entry is tile 0, whose row 0 leftmost pixel has color 1
    ppu.memory[0x23c0] = 0b11_10_01_00;
    for sub in 0..4 {
        ppu.memory[0x3f01 + sub * 4] = (0x10 + sub) as u8;
    }
    let frame = ppu.render_frame();
    assert_eq!(frame[0], (0xc7, 0xc7, 0xc7));
    assert_eq!(frame[16], (0x00, 0x77, 0xff));
    assert_eq!(frame[16 * 256], (0x21, 0x55, 0xff));
    assert_eq!(frame[16 * 256 + 16], (0x82, 0x37, 0xfa));
}

#[test]
fn ppu_register_methods() {
    let mut ppu = PPU::default();
    ppu.ppu_ctrl_write(0x90);
    ppu.ppu_mask_write(0x08);
    ppu.oam_addr_write(0x02);
    ppu.oam_data_write(0x33);
    ppu.oam_dma_write(0x07);
    assert_eq!(ppu.ppu_status_read(), 0x80);
    assert_eq!(ppu.oam_data_read(), 0x33);
    assert_eq!((ppu.ppu_ctrl, ppu.ppu_mask, ppu.oam_addr, ppu.oam_dma), (0x90, 0x08, 0x02, 0x07));
    ppu.ppu_addr_write(0x23);
    ppu.ppu_addr_write(0xc0);
    ppu.ppu_data_write(0x1b);
    assert_eq!(ppu.memory[0x23c0], 0x1b);
    ppu.ppu_scroll_write(0);
    ppu.ppu_scroll_write(0);
    ppu.ppu_addr_write(0x23);
    ppu.ppu_addr_write(0xc0);
    assert_eq!(ppu.ppu_data_read(), 0x1b);
}
