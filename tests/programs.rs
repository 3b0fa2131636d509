use disco5::computer::cpu::ExecError;
use disco5::computer::{Computer, StepEvent, CPU_CYCLES_PER_FRAME};
use disco5::nes::NES;

fn load(computer: &mut Computer, at: usize, program: &[u8]) {
    for (i, byte) in program.iter().enumerate() {
        computer.address_space.bytes[at + i] = *byte;
    }
}

#[test]
fn countdown_program() {
    let mut computer: NES = Default::default();
    computer
        .load_listing_line(&b"600: a2 10 a0 0a 94 00 e8 88 c0 00 d0 f8 00".to_vec())
        .unwrap();
    assert_eq!(
        &computer.address_space.bytes[600..616],
        &[
            0xa2, 0x10, 0xa0, 0x0a, 0x94, 0x00, 0xe8, 0x88, 0xc0, 0x00, 0xd0, 0xf8, 0x00, 0x00,
            0x00, 0x00
        ]
    );

    assert_eq!(computer.cpu.pc, 600);
    let reached = computer.run_until(0x0264, 10_000).unwrap();
    assert!(reached);
    assert_eq!(computer.cpu.pc, 0x0264);
    assert_eq!(
        &computer.address_space.bytes[16..32],
        &[10, 9, 8, 7, 6, 5, 4, 3, 2, 1, 0, 0, 0, 0, 0, 0]
    );
}

#[test]
fn run_until_stops_after_budget() {
    let mut computer: Computer = Default::default();
    // JMP $0000: an endless loop
    load(&mut computer, 0, &[0x4c, 0x00, 0x00]);
    let reached = computer.run_until(0x1234, 5).unwrap();
    assert!(!reached);
    assert_eq!(computer.cpu.clock, 15);
}

#[test]
fn run_until_reports_undocumented_opcode() {
    let mut computer: Computer = Default::default();
    load(&mut computer, 0x10, &[0xea, 0x02]);
    computer.cpu.pc = 0x10;
    let r = computer.run_until(0xffff, 10);
    assert_eq!(r, Err(ExecError::DecodeInvalid { byte: 0x02, pc: 0x12 }));
}

#[test]
fn step_counts_frame_time() {
    let mut computer: Computer = Default::default();
    load(&mut computer, 0, &[0xea]);
    assert_eq!(computer.step(), Ok(StepEvent::Running));
    assert_eq!(computer.cpu.time_since_last_frame, 2);

    computer.cpu.pc = 0;
    computer.cpu.time_since_last_frame = CPU_CYCLES_PER_FRAME - 1;
    assert_eq!(computer.step(), Ok(StepEvent::FrameElapsed));
    assert_eq!(computer.cpu.time_since_last_frame, 0);

    computer.cpu.pc = 0;
    computer.cpu.time_since_last_frame = CPU_CYCLES_PER_FRAME - 1;
    computer.address_space.ppu.ppu_ctrl = 0x80;
    assert_eq!(computer.step(), Ok(StepEvent::VBlank));
}

#[test]
fn run_frame_renders_then_enters_nmi() {
    let mut computer: Computer = Default::default();
    // LDA #$80; STA $2000; loop: JMP loop
    load(&mut computer, 0x8000, &[0xa9, 0x80, 0x8d, 0x00, 0x20, 0x4c, 0x05, 0x80]);
    computer.address_space.bytes[0xfffa] = 0x00;
    computer.address_space.bytes[0xfffb] = 0x90;
    computer.cpu.pc = 0x8000;
    computer.cpu.sp = 0xff;
    computer.address_space.ppu.memory[0x3f00] = 0x21;

    let frame = computer.run_frame(100_000).unwrap().unwrap();
    assert_eq!(frame.len(), 256 * 240);
    assert!(frame.iter().all(|p| *p == (0x0f, 0xd7, 0xff)));
    assert_eq!(computer.cpu.pc, 0x9000);
    assert!(computer.cpu.p.i);
    assert_eq!(computer.cpu.time_since_last_frame, 7);
    assert_eq!(computer.address_space.ppu.ppu_ctrl, 0x80);
}

#[test]
fn run_frame_without_nmi_returns_none() {
    let mut computer: Computer = Default::default();
    load(&mut computer, 0, &[0x4c, 0x00, 0x00]);
    assert_eq!(computer.run_frame(50_000), Ok(None));
}

use disco5::computer::cartridge::LoadError;

fn synthetic_nrom_image() -> Vec<u8> {
    let mut image = vec![0x4e, 0x45, 0x53, 0x1a, 1, 1, 0, 0, 0, 0, 0, 0, 0, 0, 0, 0];
    for i in 0..0x4000usize {
        image.push((i * 7 % 251) as u8);
    }
    // reset vector at the end of the PRG bank: $C123
    image[16 + 0x3ffc] = 0x23;
    image[16 + 0x3ffd] = 0xc1;
    for i in 0..0x2000usize {
        image.push((i % 13) as u8 + 1);
    }
    image
}

#[test]
fn nrom_128_ingest() {
    let image = synthetic_nrom_image();
    let mut computer: Computer = Default::default();
    computer.load_nrom_128(&image, 0x8000).unwrap();
    assert_eq!(
        &computer.address_space.bytes[0xbfe0..=0xbfff],
        &computer.address_space.bytes[0xffe0..=0xffff]
    );
    assert_eq!(&computer.address_space.bytes[0x8000..0xc000], &image[16..16 + 0x4000]);
    assert_eq!(&computer.address_space.ppu.memory[..0x2000], &image[16 + 0x4000..]);
    let lo = computer.address_space.bytes[0xfffc] as u16;
    let hi = computer.address_space.bytes[0xfffd] as u16;
    assert_eq!(computer.cpu.pc, (hi << 8) | lo);
    assert_eq!(computer.cpu.pc, 0xc123);
}

#[test]
fn nrom_128_truncated_image_is_refused() {
    let mut image = synthetic_nrom_image();
    image.truncate(16 + 0x4000 + 0x1fff);
    let mut computer: Computer = Default::default();
    assert_eq!(computer.load_nrom_128(&image, 0x8000), Err(LoadError::Truncated));
    assert_eq!(computer.cpu.pc, 0);
    assert_eq!(computer.address_space.bytes[0x8000], 0);
}

#[test]
fn raw_image_copied_at_entry_point() {
    let mut computer: Computer = Default::default();
    let copied = computer.load_image(&vec![0xd8, 0xa2, 0xff, 0x9a], 0x000a, 0x400);
    assert_eq!(copied, 4);
    assert_eq!(&computer.address_space.bytes[0x0a..0x0e], &[0xd8, 0xa2, 0xff, 0x9a]);
    assert_eq!(computer.cpu.pc, 0x400);

    let copied = computer.load_image(&vec![1, 2, 3, 4], 0xfffe, 0);
    assert_eq!(copied, 2);
    assert_eq!(&computer.address_space.bytes[0xfffe..], &[1, 2]);
}
