use disco5::computer::cpu::ExecError;
use disco5::computer::cpu_structs::{AddressingMode, Instruction};
use disco5::computer::Computer;

fn run(computer: &mut Computer, instruction: Instruction, ticks: u8) -> u8 {
    computer
        .cpu
        .process_instruction(instruction, ticks, &mut computer.address_space)
        .unwrap()
}

#[test]
fn test_instruction_0xa2() {
    let mut computer: Computer = Default::default();

    computer.address_space.bytes[0] = 5;
    run(&mut computer, Instruction::LDX(AddressingMode::Immediate), 2);
    assert_eq!(computer.cpu.x, 5);

    let mut computer: Computer = Default::default();
    computer.address_space.bytes[0] = 0xf4;
    run(&mut computer, Instruction::LDX(AddressingMode::Immediate), 2);
    assert_eq!(computer.cpu.x, 0xf4);
}

#[test]
fn test_instruction_0xa0() {
    let mut computer: Computer = Default::default();
    computer.address_space.bytes[0] = 5;
    run(&mut computer, Instruction::LDY(AddressingMode::Immediate), 2);
    assert_eq!(computer.cpu.y, 5);

    let mut computer: Computer = Default::default();
    computer.address_space.bytes[0] = 0xf4;
    run(&mut computer, Instruction::LDY(AddressingMode::Immediate), 2);
    assert_eq!(computer.cpu.y, 244);
}

#[test]
fn test_instruction_0x94() {
    let mut computer: Computer = Default::default();
    computer.address_space.bytes[0] = 0x05;
    computer.cpu.x = 0x00;
    computer.cpu.y = 0xff;
    run(&mut computer, Instruction::STY(AddressingMode::ZeroPageX), 4);
    assert_eq!(computer.cpu.y, computer.address_space.bytes[0x05]);

    // zero page + x wraps around modulo 256: $F4 + $F4 lands on $E8
    let mut computer: Computer = Default::default();
    computer.address_space.bytes[0] = 0xf4;
    computer.cpu.x = 0xf4;
    computer.cpu.y = 0x10;
    run(&mut computer, Instruction::STY(AddressingMode::ZeroPageX), 4);
    assert_eq!(computer.cpu.y, computer.address_space.bytes[232]);
}

#[test]
fn test_instruction_0xe8() {
    let mut computer: Computer = Default::default();
    computer.cpu.x = 0x00;
    let x_before = computer.cpu.x;
    run(&mut computer, Instruction::INX(AddressingMode::Implied), 2);
    assert_eq!(computer.cpu.x, x_before + 1);

    let mut computer: Computer = Default::default();
    computer.cpu.x = 0xb8;
    let x_before = computer.cpu.x;
    run(&mut computer, Instruction::INX(AddressingMode::Implied), 2);
    assert_eq!(computer.cpu.x, x_before + 1);
}

#[test]
fn test_instruction_0x88() {
    let mut computer: Computer = Default::default();
    computer.cpu.y = 0x01;
    let y_before = computer.cpu.y;
    run(&mut computer, Instruction::DEY(AddressingMode::Implied), 2);
    assert_eq!(computer.cpu.y, y_before - 1);

    let mut computer: Computer = Default::default();
    computer.cpu.y = 0xb8;
    let y_before = computer.cpu.y;
    run(&mut computer, Instruction::DEY(AddressingMode::Implied), 2);
    assert_eq!(computer.cpu.y, y_before - 1);
}

#[test]
fn test_instruction_0xc0() {
    let mut computer: Computer = Default::default();
    computer.address_space.bytes[0] = 0xa1;
    computer.cpu.y = 0xa1;
    run(&mut computer, Instruction::CPY(AddressingMode::Immediate), 2);
    assert_eq!(computer.cpu.p.z, true);

    let mut computer: Computer = Default::default();
    computer.address_space.bytes[0] = 0xb1;
    computer.cpu.y = 0xa1;
    run(&mut computer, Instruction::CPY(AddressingMode::Immediate), 2);
    assert_eq!(computer.cpu.p.z, false);
}

fn adc_immediate(a: u8, carry: bool, operand: u8) -> Computer {
    let mut computer: Computer = Default::default();
    computer.cpu.a = a;
    computer.cpu.p.c = carry;
    computer.address_space.bytes[0] = operand;
    run(&mut computer, Instruction::ADC(AddressingMode::Immediate), 2);
    computer
}

#[test]
fn adc_immediate_with_carry_set() {
    let c = adc_immediate(0x05, true, 0x0a);
    assert_eq!(c.cpu.a, 0x10);
    assert!(!c.cpu.p.n && !c.cpu.p.z && !c.cpu.p.c && !c.cpu.p.v);
}

#[test]
fn adc_immediate_unsigned_overflow() {
    let c = adc_immediate(0x10, false, 0xff);
    assert_eq!(c.cpu.a, 0x0f);
    assert!(c.cpu.p.c);
    assert!(!c.cpu.p.v);
}

#[test]
fn adc_signed_overflow() {
    let c = adc_immediate(0x50, false, 0x50);
    assert_eq!(c.cpu.a, 0xa0);
    assert!(c.cpu.p.n && c.cpu.p.v && !c.cpu.p.c);
}

#[test]
fn adc_matches_formula_for_sampled_values() {
    for a in [0u8, 1, 0x7f, 0x80, 0xff, 0x3c] {
        for m in [0u8, 1, 0x7f, 0x80, 0xff, 0xc3] {
            for carry in [false, true] {
                let c = adc_immediate(a, carry, m);
                let sum = a as u16 + m as u16 + carry as u16;
                let r = (sum % 256) as u8;
                assert_eq!(c.cpu.a, r);
                assert_eq!(c.cpu.p.c, sum >= 256);
                assert_eq!(c.cpu.p.v, (a ^ r) & (m ^ r) & 0x80 != 0);
                assert_eq!(c.cpu.p.z, r == 0);
                assert_eq!(c.cpu.p.n, r & 0x80 != 0);
            }
        }
    }
}

#[test]
fn sbc_immediate() {
    let mut computer: Computer = Default::default();
    computer.cpu.a = 0xff;
    computer.cpu.p.c = true;
    computer.address_space.bytes[0] = 0xff;
    run(&mut computer, Instruction::SBC(AddressingMode::Immediate), 2);
    assert_eq!(computer.cpu.a, 0x00);
    assert!(computer.cpu.p.z && computer.cpu.p.c && !computer.cpu.p.v);
}

#[test]
fn compare_sets_carry_zero_negative() {
    for (reg, m) in [(5u8, 5u8), (5, 6), (6, 5), (0, 0xff), (0x80, 0x01)] {
        let mut computer: Computer = Default::default();
        computer.cpu.a = reg;
        computer.address_space.bytes[0] = m;
        run(&mut computer, Instruction::CMP(AddressingMode::Immediate), 2);
        assert_eq!(computer.cpu.p.c, reg >= m);
        assert_eq!(computer.cpu.p.z, reg == m);
        assert_eq!(computer.cpu.p.n, reg.wrapping_sub(m) & 0x80 != 0);
        assert_eq!(computer.cpu.a, reg);
    }
}

#[test]
fn bne_relative_backward() {
    let mut computer: Computer = Default::default();
    computer.address_space.bytes[10] = 0xf5;
    computer.cpu.pc = 10;
    computer.cpu.p.z = false;
    let ticks = run(&mut computer, Instruction::BNE(AddressingMode::Relative), 2);
    assert_eq!(computer.cpu.pc, 0);
    assert_eq!(ticks, 3);
}

#[test]
fn branch_not_taken_skips_offset() {
    let mut computer: Computer = Default::default();
    computer.address_space.bytes[10] = 0xf5;
    computer.cpu.pc = 10;
    computer.cpu.p.z = true;
    let ticks = run(&mut computer, Instruction::BNE(AddressingMode::Relative), 2);
    assert_eq!(computer.cpu.pc, 11);
    assert_eq!(ticks, 2);
}

#[test]
fn branch_crossing_page_costs_two_more() {
    let mut computer: Computer = Default::default();
    computer.address_space.bytes[0x10fe] = 0x10;
    computer.cpu.pc = 0x10fe;
    computer.cpu.p.c = true;
    let ticks = run(&mut computer, Instruction::BCS(AddressingMode::Relative), 2);
    assert_eq!(computer.cpu.pc, 0x110f);
    assert_eq!(ticks, 4);
}

#[test]
fn branch_wraps_at_top_of_memory() {
    let mut computer: Computer = Default::default();
    computer.address_space.bytes[0xfffe] = 0x05;
    computer.cpu.pc = 0xfffe;
    computer.cpu.p.n = false;
    run(&mut computer, Instruction::BPL(AddressingMode::Relative), 2);
    assert_eq!(computer.cpu.pc, 0x0004);
}

#[test]
fn fetch_instruction_wraps_pc() {
    let mut computer: Computer = Default::default();
    computer.cpu.pc = 0xffff;
    computer.address_space.bytes[0xffff] = 0xab;
    let byte = computer.cpu.fetch_instruction(&mut computer.address_space);
    assert_eq!(byte, 0xab);
    assert_eq!(computer.cpu.pc, 0);
    computer.cpu.fetch_instruction(&mut computer.address_space);
    assert_eq!(computer.cpu.pc, 1);
}

#[test]
fn pha_then_pla_restores_accumulator_and_sp() {
    let mut computer: Computer = Default::default();
    computer.cpu.sp = 0xfd;
    computer.cpu.a = 0x42;
    run(&mut computer, Instruction::PHA(AddressingMode::Implied), 3);
    assert_eq!(computer.cpu.sp, 0xfc);
    assert_eq!(computer.address_space.bytes[0x1fd], 0x42);
    computer.cpu.a = 0;
    run(&mut computer, Instruction::PLA(AddressingMode::Implied), 4);
    assert_eq!(computer.cpu.a, 0x42);
    assert_eq!(computer.cpu.sp, 0xfd);
}

#[test]
fn stack_pointer_wraps() {
    let mut computer: Computer = Default::default();
    computer.cpu.sp = 0x00;
    computer.cpu.a = 0x99;
    run(&mut computer, Instruction::PHA(AddressingMode::Implied), 3);
    assert_eq!(computer.cpu.sp, 0xff);
    assert_eq!(computer.address_space.bytes[0x100], 0x99);
    run(&mut computer, Instruction::PLA(AddressingMode::Implied), 4);
    assert_eq!(computer.cpu.sp, 0x00);
    assert_eq!(computer.cpu.a, 0x99);
}

#[test]
fn jsr_then_rts_returns_after_call() {
    let mut computer: Computer = Default::default();
    computer.cpu.sp = 0xff;
    // JSR $1234 at $0200; PC already past the opcode
    computer.address_space.bytes[0x201] = 0x34;
    computer.address_space.bytes[0x202] = 0x12;
    computer.cpu.pc = 0x201;
    run(&mut computer, Instruction::JSR(AddressingMode::Absolute), 6);
    assert_eq!(computer.cpu.pc, 0x1234);
    assert_eq!(computer.address_space.bytes[0x1ff], 0x02);
    assert_eq!(computer.address_space.bytes[0x1fe], 0x02);
    run(&mut computer, Instruction::RTS(AddressingMode::Implied), 6);
    assert_eq!(computer.cpu.pc, 0x203);
    assert_eq!(computer.cpu.sp, 0xff);
}

#[test]
fn brk_then_rti() {
    let mut computer: Computer = Default::default();
    computer.cpu.sp = 0xff;
    computer.cpu.pc = 0x301;
    computer.cpu.p.c = true;
    computer.address_space.bytes[0xfffe] = 0x00;
    computer.address_space.bytes[0xffff] = 0x90;
    run(&mut computer, Instruction::BRK(AddressingMode::Implied), 7);
    assert_eq!(computer.cpu.pc, 0x9000);
    assert!(computer.cpu.p.i);
    assert_eq!(computer.address_space.bytes[0x1ff], 0x03);
    assert_eq!(computer.address_space.bytes[0x1fe], 0x02);
    // status pushed with B and the unused bit set
    assert_eq!(computer.address_space.bytes[0x1fd], 0x31);
    run(&mut computer, Instruction::RTI(AddressingMode::Implied), 6);
    assert_eq!(computer.cpu.pc, 0x302);
    assert!(computer.cpu.p.c);
    assert!(!computer.cpu.p.i);
    assert!(!computer.cpu.p.b);
    assert_eq!(computer.cpu.sp, 0xff);
}

#[test]
fn nmi_pushes_status_with_break_clear() {
    let mut computer: Computer = Default::default();
    computer.cpu.sp = 0xff;
    computer.cpu.pc = 0x8123;
    computer.cpu.p.b = true;
    computer.cpu.p.z = true;
    computer.address_space.bytes[0xfffa] = 0x45;
    computer.address_space.bytes[0xfffb] = 0xc0;
    let ticks = run(&mut computer, Instruction::NMI, 7);
    assert_eq!(ticks, 7);
    assert_eq!(computer.cpu.pc, 0xc045);
    assert!(computer.cpu.p.i);
    assert_eq!(computer.address_space.bytes[0x1ff], 0x81);
    assert_eq!(computer.address_space.bytes[0x1fe], 0x23);
    assert_eq!(computer.address_space.bytes[0x1fd], 0x22);
}

#[test]
fn php_then_plp_keeps_break_flag() {
    let mut computer: Computer = Default::default();
    computer.cpu.sp = 0xff;
    computer.cpu.p.n = true;
    run(&mut computer, Instruction::PHP(AddressingMode::Implied), 3);
    assert_eq!(computer.address_space.bytes[0x1ff], 0xb0);
    computer.cpu.p.n = false;
    run(&mut computer, Instruction::PLP(AddressingMode::Implied), 4);
    assert!(computer.cpu.p.n);
    assert!(!computer.cpu.p.b);
}

#[test]
fn jmp_indirect_wraps_within_page() {
    let mut computer: Computer = Default::default();
    computer.address_space.bytes[0] = 0xff;
    computer.address_space.bytes[1] = 0x02;
    computer.address_space.bytes[0x2ff] = 0x34;
    computer.address_space.bytes[0x200] = 0x12;
    computer.address_space.bytes[0x300] = 0x56;
    run(&mut computer, Instruction::JMP(AddressingMode::Indirect), 5);
    assert_eq!(computer.cpu.pc, 0x1234);
}

#[test]
fn indirect_x_wraps_in_zero_page() {
    let mut computer: Computer = Default::default();
    computer.address_space.bytes[0] = 0xfe;
    computer.cpu.x = 0x01;
    computer.address_space.bytes[0xff] = 0x00;
    computer.address_space.bytes[0x100] = 0x77;
    // pointer at $FF: low byte from $FF, high byte from $00 (the operand byte $FE)
    computer.address_space.bytes[0xfe00] = 0x5a;
    run(&mut computer, Instruction::LDA(AddressingMode::IndirectX), 6);
    assert_eq!(computer.cpu.a, 0x5a);
}

#[test]
fn indirect_y_adds_page_penalty() {
    let mut computer: Computer = Default::default();
    computer.address_space.bytes[0] = 0x40;
    computer.address_space.bytes[0x40] = 0xf0;
    computer.address_space.bytes[0x41] = 0x12;
    computer.cpu.y = 0x20;
    computer.address_space.bytes[0x1310] = 0x66;
    let ticks = run(&mut computer, Instruction::LDA(AddressingMode::IndirectY), 5);
    assert_eq!(computer.cpu.a, 0x66);
    assert_eq!(ticks, 6);
}

#[test]
fn absolute_x_page_cross_penalty_only_for_reads() {
    let mut computer: Computer = Default::default();
    computer.address_space.bytes[0] = 0xff;
    computer.address_space.bytes[1] = 0x10;
    computer.cpu.x = 1;
    computer.address_space.bytes[0x1100] = 0x33;
    let ticks = run(&mut computer, Instruction::LDA(AddressingMode::AbsoluteX), 4);
    assert_eq!(computer.cpu.a, 0x33);
    assert_eq!(ticks, 5);

    let mut computer: Computer = Default::default();
    computer.address_space.bytes[0] = 0xff;
    computer.address_space.bytes[1] = 0x10;
    computer.cpu.x = 1;
    computer.cpu.a = 0x44;
    let ticks = run(&mut computer, Instruction::STA(AddressingMode::AbsoluteX), 5);
    assert_eq!(computer.address_space.bytes[0x1100], 0x44);
    assert_eq!(ticks, 5);
}

#[test]
fn shifts_operate_on_memory_byte() {
    let mut computer: Computer = Default::default();
    computer.address_space.bytes[0] = 0x10;
    computer.address_space.bytes[0x10] = 0x81;
    computer.cpu.a = 0x00;
    run(&mut computer, Instruction::ASL(AddressingMode::ZeroPage), 5);
    assert_eq!(computer.address_space.bytes[0x10], 0x02);
    assert!(computer.cpu.p.c);

    computer.cpu.pc = 0;
    run(&mut computer, Instruction::ROR(AddressingMode::ZeroPage), 5);
    assert_eq!(computer.address_space.bytes[0x10], 0x81);
    assert!(!computer.cpu.p.c);
    assert!(computer.cpu.p.n);

    computer.cpu.pc = 0;
    run(&mut computer, Instruction::LSR(AddressingMode::ZeroPage), 5);
    assert_eq!(computer.address_space.bytes[0x10], 0x40);
    assert!(computer.cpu.p.c);

    computer.cpu.pc = 0;
    run(&mut computer, Instruction::ROL(AddressingMode::ZeroPage), 5);
    assert_eq!(computer.address_space.bytes[0x10], 0x81);
    assert!(!computer.cpu.p.c);
}

#[test]
fn accumulator_rotate() {
    let mut computer: Computer = Default::default();
    computer.cpu.a = 0x80;
    computer.cpu.p.c = false;
    run(&mut computer, Instruction::ROL(AddressingMode::Accumulator), 2);
    assert_eq!(computer.cpu.a, 0x00);
    assert!(computer.cpu.p.c && computer.cpu.p.z);
}

#[test]
fn bit_copies_operand_bits() {
    let mut computer: Computer = Default::default();
    computer.address_space.bytes[0] = 0x20;
    computer.address_space.bytes[0x20] = 0xc0;
    computer.cpu.a = 0x3f;
    run(&mut computer, Instruction::BIT(AddressingMode::ZeroPage), 3);
    assert!(computer.cpu.p.n && computer.cpu.p.v && computer.cpu.p.z);
}

#[test]
fn increments_wrap() {
    let mut computer: Computer = Default::default();
    computer.address_space.bytes[0] = 0x30;
    computer.address_space.bytes[0x30] = 0xff;
    run(&mut computer, Instruction::INC(AddressingMode::ZeroPage), 5);
    assert_eq!(computer.address_space.bytes[0x30], 0x00);
    assert!(computer.cpu.p.z);
    computer.cpu.x = 0;
    run(&mut computer, Instruction::DEX(AddressingMode::Implied), 2);
    assert_eq!(computer.cpu.x, 0xff);
    assert!(computer.cpu.p.n);
}

#[test]
fn transfers() {
    let mut computer: Computer = Default::default();
    computer.cpu.x = 0x80;
    computer.cpu.p.n = false;
    run(&mut computer, Instruction::TXS(AddressingMode::Implied), 2);
    assert_eq!(computer.cpu.sp, 0x80);
    assert!(!computer.cpu.p.n);
    run(&mut computer, Instruction::TXA(AddressingMode::Implied), 2);
    assert_eq!(computer.cpu.a, 0x80);
    assert!(computer.cpu.p.n);
}

#[test]
fn clock_counts_cycles() {
    let mut computer: Computer = Default::default();
    run(&mut computer, Instruction::NOP(AddressingMode::Implied), 2);
    run(&mut computer, Instruction::INX(AddressingMode::Implied), 2);
    assert_eq!(computer.cpu.clock, 4);
    computer.tick(9);
    assert_eq!(computer.clock, 9);
}

#[test]
fn mode_mismatch_is_refused() {
    let mut computer: Computer = Default::default();
    computer.cpu.pc = 0x40;
    let r = computer.cpu.process_instruction(
        Instruction::LDA(AddressingMode::Accumulator),
        2,
        &mut computer.address_space,
    );
    assert_eq!(
        r,
        Err(ExecError::ModeMismatch {
            instruction: Instruction::LDA(AddressingMode::Accumulator),
            pc: 0x40
        })
    );
    assert_eq!(computer.cpu.pc, 0x40);
}

#[test]
fn invalid_opcode_is_refused() {
    let mut computer: Computer = Default::default();
    computer.cpu.pc = 0x77;
    let r = computer
        .cpu
        .process_instruction(Instruction::Invalid(0x02), 0, &mut computer.address_space);
    assert_eq!(r, Err(ExecError::DecodeInvalid { byte: 0x02, pc: 0x77 }));
}
