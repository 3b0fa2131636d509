use disco5::computer::cpu_structs::{map_byte_to_instruction, AddressingMode, Instruction};
use disco5::computer::status::StatusRegister;

#[test]
fn decodes_documented_opcodes() {
    assert_eq!(map_byte_to_instruction(0x69), (Instruction::ADC(AddressingMode::Immediate), 2));
    assert_eq!(map_byte_to_instruction(0x7d), (Instruction::ADC(AddressingMode::AbsoluteX), 4));
    assert_eq!(map_byte_to_instruction(0x9d), (Instruction::STA(AddressingMode::AbsoluteX), 5));
    assert_eq!(map_byte_to_instruction(0x00), (Instruction::BRK(AddressingMode::Implied), 7));
    assert_eq!(map_byte_to_instruction(0x6c), (Instruction::JMP(AddressingMode::Indirect), 5));
    assert_eq!(map_byte_to_instruction(0xb6), (Instruction::LDX(AddressingMode::ZeroPageY), 4));
    assert_eq!(map_byte_to_instruction(0xd0), (Instruction::BNE(AddressingMode::Relative), 2));
}

#[test]
fn undocumented_opcodes_are_invalid() {
    let mut documented = 0;
    for byte in 0..=255u8 {
        let (instruction, cycles) = map_byte_to_instruction(byte);
        match instruction {
            Instruction::Invalid(b) => {
                assert_eq!(b, byte);
                assert_eq!(cycles, 0);
            }
            _ => {
                documented += 1;
                assert!((2..=7).contains(&cycles));
            }
        }
    }
    assert_eq!(documented, 151);
    assert_eq!(map_byte_to_instruction(0xff), (Instruction::Invalid(0xff), 0));
}

#[test]
fn status_byte_layout() {
    let mut p = StatusRegister::default();
    assert_eq!(p.to_byte(), 0x20);
    p.n = true;
    p.c = true;
    assert_eq!(p.to_byte(), 0xa1);
    p.set_from_byte(0x42);
    assert!(p.v && p.z && !p.n && !p.c && !p.b && !p.d && !p.i);
}

#[test]
fn status_round_trip() {
    for bits in 0..128u8 {
        let p = StatusRegister {
            n: bits & 1 != 0,
            v: bits & 2 != 0,
            b: bits & 4 != 0,
            d: bits & 8 != 0,
            i: bits & 16 != 0,
            z: bits & 32 != 0,
            c: bits & 64 != 0,
        };
        let mut q = StatusRegister::default();
        q.set_from_byte(p.to_byte());
        assert_eq!(q, p);
        assert_eq!(p.to_byte() & 0x20, 0x20);
    }
}
