use vstd::prelude::*;

verus! {

/// The rule by which an instruction computes its operand.
#[derive(Copy, Clone, Debug, PartialEq, Eq, Structural)]
pub enum AddressingMode {
    Accumulator,
    Absolute,
    AbsoluteX,
    AbsoluteY,
    Immediate,
    Implied,
    Indirect,
    IndirectX,
    IndirectY,
    Relative,
    ZeroPage,
    ZeroPageX,
    ZeroPageY,
}

/// A decoded instruction: a mnemonic tagged with its addressing mode, the
/// synthesized `NMI` entry, or an undocumented opcode.
#[derive(Copy, Clone, Debug, PartialEq, Eq, Structural)]
pub enum Instruction {
    /// add with carry
    ADC(AddressingMode),
    /// and (with accumulator)
    AND(AddressingMode),
    /// arithmetic shift left
    ASL(AddressingMode),
    /// branch on carry clear
    BCC(AddressingMode),
    /// branch on carry set
    BCS(AddressingMode),
    /// branch on equal (zero set)
    BEQ(AddressingMode),
    /// bit test
    BIT(AddressingMode),
    /// branch on minus (negative set)
    BMI(AddressingMode),
    /// branch on not equal (zero clear)
    BNE(AddressingMode),
    /// branch on plus (negative clear)
    BPL(AddressingMode),
    /// break / interrupt
    BRK(AddressingMode),
    /// branch on overflow clear
    BVC(AddressingMode),
    /// branch on overflow set
    BVS(AddressingMode),
    /// clear carry
    CLC(AddressingMode),
    /// clear decimal
    CLD(AddressingMode),
    /// clear interrupt disable
    CLI(AddressingMode),
    /// clear overflow
    CLV(AddressingMode),
    /// compare (with accumulator)
    CMP(AddressingMode),
    /// compare with X
    CPX(AddressingMode),
    /// compare with Y
    CPY(AddressingMode),
    /// decrement
    DEC(AddressingMode),
    /// decrement X
    DEX(AddressingMode),
    /// decrement Y
    DEY(AddressingMode),
    /// exclusive or (with accumulator)
    EOR(AddressingMode),
    /// increment
    INC(AddressingMode),
    /// increment X
    INX(AddressingMode),
    /// increment Y
    INY(AddressingMode),
    /// jump
    JMP(AddressingMode),
    /// jump subroutine
    JSR(AddressingMode),
    /// load accumulator
    LDA(AddressingMode),
    /// load X
    LDX(AddressingMode),
    /// load Y
    LDY(AddressingMode),
    /// logical shift right
    LSR(AddressingMode),
    /// no operation
    NOP(AddressingMode),
    /// or with accumulator
    ORA(AddressingMode),
    /// push accumulator
    PHA(AddressingMode),
    /// push processor status (SR)
    PHP(AddressingMode),
    /// pull accumulator
    PLA(AddressingMode),
    /// pull processor status (SR)
    PLP(AddressingMode),
    /// rotate left
    ROL(AddressingMode),
    /// rotate right
    ROR(AddressingMode),
    /// return from interrupt
    RTI(AddressingMode),
    /// return from subroutine
    RTS(AddressingMode),
    /// subtract with carry
    SBC(AddressingMode),
    /// set carry
    SEC(AddressingMode),
    /// set decimal
    SED(AddressingMode),
    /// set interrupt disable
    SEI(AddressingMode),
    /// store accumulator
    STA(AddressingMode),
    /// store X
    STX(AddressingMode),
    /// store Y
    STY(AddressingMode),
    /// transfer accumulator to X
    TAX(AddressingMode),
    /// transfer accumulator to Y
    TAY(AddressingMode),
    /// transfer stack pointer to X
    TSX(AddressingMode),
    /// transfer X to accumulator
    TXA(AddressingMode),
    /// transfer X to stack pointer
    TXS(AddressingMode),
    /// transfer Y to accumulator
    TYA(AddressingMode),
    /// non-maskable interrupt entry, synthesized on vertical blank
    NMI,
    /// an opcode outside the documented instruction set
    Invalid(u8),
}

/// Whether `instruction` pairs its mnemonic with one of the addressing modes
/// that the mnemonic permits. `NMI` takes no operand and is always legal;
/// `Invalid` never is.
pub open spec fn legal_mode(instruction: Instruction) -> bool {
    match instruction {
        Instruction::ADC(am) | Instruction::AND(am) | Instruction::CMP(am) | Instruction::EOR(am) | Instruction::LDA(am) | Instruction::ORA(am) | Instruction::SBC(am) => am == AddressingMode::Absolute || am == AddressingMode::AbsoluteX || am == AddressingMode::AbsoluteY || am == AddressingMode::Immediate || am == AddressingMode::IndirectX || am == AddressingMode::IndirectY || am == AddressingMode::ZeroPage || am == AddressingMode::ZeroPageX,
        Instruction::ASL(am) | Instruction::LSR(am) | Instruction::ROL(am) | Instruction::ROR(am) => am == AddressingMode::Accumulator || am == AddressingMode::Absolute || am == AddressingMode::AbsoluteX || am == AddressingMode::ZeroPage || am == AddressingMode::ZeroPageX,
        Instruction::BCC(am) | Instruction::BCS(am) | Instruction::BEQ(am) | Instruction::BMI(am) | Instruction::BNE(am) | Instruction::BPL(am) | Instruction::BVC(am) | Instruction::BVS(am) => am == AddressingMode::Relative,
        Instruction::BIT(am) => am == AddressingMode::Absolute || am == AddressingMode::ZeroPage,
        Instruction::BRK(am) | Instruction::CLC(am) | Instruction::CLD(am) | Instruction::CLI(am) | Instruction::CLV(am) | Instruction::DEX(am) | Instruction::DEY(am) | Instruction::INX(am) | Instruction::INY(am) | Instruction::NOP(am) | Instruction::PHA(am) | Instruction::PHP(am) | Instruction::PLA(am) | Instruction::PLP(am) | Instruction::RTI(am) | Instruction::RTS(am) | Instruction::SEC(am) | Instruction::SED(am) | Instruction::SEI(am) | Instruction::TAX(am) | Instruction::TAY(am) | Instruction::TSX(am) | Instruction::TXA(am) | Instruction::TXS(am) | Instruction::TYA(am) => am == AddressingMode::Implied,
        Instruction::CPX(am) | Instruction::CPY(am) => am == AddressingMode::Absolute || am == AddressingMode::Immediate || am == AddressingMode::ZeroPage,
        Instruction::DEC(am) | Instruction::INC(am) => am == AddressingMode::Absolute || am == AddressingMode::AbsoluteX || am == AddressingMode::ZeroPage || am == AddressingMode::ZeroPageX,
        Instruction::JMP(am) => am == AddressingMode::Absolute || am == AddressingMode::Indirect,
        Instruction::JSR(am) => am == AddressingMode::Absolute,
        Instruction::LDX(am) => am == AddressingMode::Absolute || am == AddressingMode::AbsoluteY || am == AddressingMode::Immediate || am == AddressingMode::ZeroPage || am == AddressingMode::ZeroPageY,
        Instruction::LDY(am) => am == AddressingMode::Absolute || am == AddressingMode::AbsoluteX || am == AddressingMode::Immediate || am == AddressingMode::ZeroPage || am == AddressingMode::ZeroPageX,
        Instruction::STA(am) => am == AddressingMode::Absolute || am == AddressingMode::AbsoluteX || am == AddressingMode::AbsoluteY || am == AddressingMode::IndirectX || am == AddressingMode::IndirectY || am == AddressingMode::ZeroPage || am == AddressingMode::ZeroPageX,
        Instruction::STX(am) => am == AddressingMode::Absolute || am == AddressingMode::ZeroPage || am == AddressingMode::ZeroPageY,
        Instruction::STY(am) => am == AddressingMode::Absolute || am == AddressingMode::ZeroPage || am == AddressingMode::ZeroPageX,
        Instruction::NMI => true,
        Instruction::Invalid(_) => false,
    }
}

/// Whether the instruction's addressing mode is one its mnemonic permits.
pub fn permits_mode(instruction: Instruction) -> (r: bool)
    ensures
        r == legal_mode(instruction),
{
    match instruction {
        Instruction::ADC(am) | Instruction::AND(am) | Instruction::CMP(am) | Instruction::EOR(am) | Instruction::LDA(am) | Instruction::ORA(am) | Instruction::SBC(am) => am == AddressingMode::Absolute || am == AddressingMode::AbsoluteX || am == AddressingMode::AbsoluteY || am == AddressingMode::Immediate || am == AddressingMode::IndirectX || am == AddressingMode::IndirectY || am == AddressingMode::ZeroPage || am == AddressingMode::ZeroPageX,
        Instruction::ASL(am) | Instruction::LSR(am) | Instruction::ROL(am) | Instruction::ROR(am) => am == AddressingMode::Accumulator || am == AddressingMode::Absolute || am == AddressingMode::AbsoluteX || am == AddressingMode::ZeroPage || am == AddressingMode::ZeroPageX,
        Instruction::BCC(am) | Instruction::BCS(am) | Instruction::BEQ(am) | Instruction::BMI(am) | Instruction::BNE(am) | Instruction::BPL(am) | Instruction::BVC(am) | Instruction::BVS(am) => am == AddressingMode::Relative,
        Instruction::BIT(am) => am == AddressingMode::Absolute || am == AddressingMode::ZeroPage,
        Instruction::BRK(am) | Instruction::CLC(am) | Instruction::CLD(am) | Instruction::CLI(am) | Instruction::CLV(am) | Instruction::DEX(am) | Instruction::DEY(am) | Instruction::INX(am) | Instruction::INY(am) | Instruction::NOP(am) | Instruction::PHA(am) | Instruction::PHP(am) | Instruction::PLA(am) | Instruction::PLP(am) | Instruction::RTI(am) | Instruction::RTS(am) | Instruction::SEC(am) | Instruction::SED(am) | Instruction::SEI(am) | Instruction::TAX(am) | Instruction::TAY(am) | Instruction::TSX(am) | Instruction::TXA(am) | Instruction::TXS(am) | Instruction::TYA(am) => am == AddressingMode::Implied,
        Instruction::CPX(am) | Instruction::CPY(am) => am == AddressingMode::Absolute || am == AddressingMode::Immediate || am == AddressingMode::ZeroPage,
        Instruction::DEC(am) | Instruction::INC(am) => am == AddressingMode::Absolute || am == AddressingMode::AbsoluteX || am == AddressingMode::ZeroPage || am == AddressingMode::ZeroPageX,
        Instruction::JMP(am) => am == AddressingMode::Absolute || am == AddressingMode::Indirect,
        Instruction::JSR(am) => am == AddressingMode::Absolute,
        Instruction::LDX(am) => am == AddressingMode::Absolute || am == AddressingMode::AbsoluteY || am == AddressingMode::Immediate || am == AddressingMode::ZeroPage || am == AddressingMode::ZeroPageY,
        Instruction::LDY(am) => am == AddressingMode::Absolute || am == AddressingMode::AbsoluteX || am == AddressingMode::Immediate || am == AddressingMode::ZeroPage || am == AddressingMode::ZeroPageX,
        Instruction::STA(am) => am == AddressingMode::Absolute || am == AddressingMode::AbsoluteX || am == AddressingMode::AbsoluteY || am == AddressingMode::IndirectX || am == AddressingMode::IndirectY || am == AddressingMode::ZeroPage || am == AddressingMode::ZeroPageX,
        Instruction::STX(am) => am == AddressingMode::Absolute || am == AddressingMode::ZeroPage || am == AddressingMode::ZeroPageY,
        Instruction::STY(am) => am == AddressingMode::Absolute || am == AddressingMode::ZeroPage || am == AddressingMode::ZeroPageX,
        Instruction::NMI => true,
        Instruction::Invalid(_) => false,
    }
}

/// The documented opcode map: each opcode with its instruction and its base
/// cycle count; every other byte is `Invalid` with no cycles.
pub open spec fn opcode_table(byte: u8) -> (Instruction, u8) {
    if byte == 0x6d {
        (Instruction::ADC(AddressingMode::Absolute), 4)
    } else if byte == 0x7d {
        (Instruction::ADC(AddressingMode::AbsoluteX), 4)
    } else if byte == 0x79 {
        (Instruction::ADC(AddressingMode::AbsoluteY), 4)
    } else if byte == 0x69 {
        (Instruction::ADC(AddressingMode::Immediate), 2)
    } else if byte == 0x61 {
        (Instruction::ADC(AddressingMode::IndirectX), 6)
    } else if byte == 0x71 {
        (Instruction::ADC(AddressingMode::IndirectY), 5)
    } else if byte == 0x65 {
        (Instruction::ADC(AddressingMode::ZeroPage), 3)
    } else if byte == 0x75 {
        (Instruction::ADC(AddressingMode::ZeroPageX), 4)
    } else if byte == 0x2d {
        (Instruction::AND(AddressingMode::Absolute), 4)
    } else if byte == 0x3d {
        (Instruction::AND(AddressingMode::AbsoluteX), 4)
    } else if byte == 0x39 {
        (Instruction::AND(AddressingMode::AbsoluteY), 4)
    } else if byte == 0x29 {
        (Instruction::AND(AddressingMode::Immediate), 2)
    } else if byte == 0x21 {
        (Instruction::AND(AddressingMode::IndirectX), 6)
    } else if byte == 0x31 {
        (Instruction::AND(AddressingMode::IndirectY), 5)
    } else if byte == 0x25 {
        (Instruction::AND(AddressingMode::ZeroPage), 3)
    } else if byte == 0x35 {
        (Instruction::AND(AddressingMode::ZeroPageX), 4)
    } else if byte == 0x0a {
        (Instruction::ASL(AddressingMode::Accumulator), 2)
    } else if byte == 0x0e {
        (Instruction::ASL(AddressingMode::Absolute), 6)
    } else if byte == 0x1e {
        (Instruction::ASL(AddressingMode::AbsoluteX), 7)
    } else if byte == 0x06 {
        (Instruction::ASL(AddressingMode::ZeroPage), 5)
    } else if byte == 0x16 {
        (Instruction::ASL(AddressingMode::ZeroPageX), 6)
    } else if byte == 0x90 {
        (Instruction::BCC(AddressingMode::Relative), 2)
    } else if byte == 0xb0 {
        (Instruction::BCS(AddressingMode::Relative), 2)
    } else if byte == 0xf0 {
        (Instruction::BEQ(AddressingMode::Relative), 2)
    } else if byte == 0x2c {
        (Instruction::BIT(AddressingMode::Absolute), 4)
    } else if byte == 0x24 {
        (Instruction::BIT(AddressingMode::ZeroPage), 3)
    } else if byte == 0x30 {
        (Instruction::BMI(AddressingMode::Relative), 2)
    } else if byte == 0xd0 {
        (Instruction::BNE(AddressingMode::Relative), 2)
    } else if byte == 0x10 {
        (Instruction::BPL(AddressingMode::Relative), 2)
    } else if byte == 0x00 {
        (Instruction::BRK(AddressingMode::Implied), 7)
    } else if byte == 0x50 {
        (Instruction::BVC(AddressingMode::Relative), 2)
    } else if byte == 0x70 {
        (Instruction::BVS(AddressingMode::Relative), 2)
    } else if byte == 0x18 {
        (Instruction::CLC(AddressingMode::Implied), 2)
    } else if byte == 0xd8 {
        (Instruction::CLD(AddressingMode::Implied), 2)
    } else if byte == 0x58 {
        (Instruction::CLI(AddressingMode::Implied), 2)
    } else if byte == 0xb8 {
        (Instruction::CLV(AddressingMode::Implied), 2)
    } else if byte == 0xcd {
        (Instruction::CMP(AddressingMode::Absolute), 4)
    } else if byte == 0xdd {
        (Instruction::CMP(AddressingMode::AbsoluteX), 4)
    } else if byte == 0xd9 {
        (Instruction::CMP(AddressingMode::AbsoluteY), 4)
    } else if byte == 0xc9 {
        (Instruction::CMP(AddressingMode::Immediate), 2)
    } else if byte == 0xc1 {
        (Instruction::CMP(AddressingMode::IndirectX), 6)
    } else if byte == 0xd1 {
        (Instruction::CMP(AddressingMode::IndirectY), 5)
    } else if byte == 0xc5 {
        (Instruction::CMP(AddressingMode::ZeroPage), 3)
    } else if byte == 0xd5 {
        (Instruction::CMP(AddressingMode::ZeroPageX), 4)
    } else if byte == 0xec {
        (Instruction::CPX(AddressingMode::Absolute), 4)
    } else if byte == 0xe0 {
        (Instruction::CPX(AddressingMode::Immediate), 2)
    } else if byte == 0xe4 {
        (Instruction::CPX(AddressingMode::ZeroPage), 3)
    } else if byte == 0xcc {
        (Instruction::CPY(AddressingMode::Absolute), 4)
    } else if byte == 0xc0 {
        (Instruction::CPY(AddressingMode::Immediate), 2)
    } else if byte == 0xc4 {
        (Instruction::CPY(AddressingMode::ZeroPage), 3)
    } else if byte == 0xce {
        (Instruction::DEC(AddressingMode::Absolute), 6)
    } else if byte == 0xde {
        (Instruction::DEC(AddressingMode::AbsoluteX), 7)
    } else if byte == 0xc6 {
        (Instruction::DEC(AddressingMode::ZeroPage), 5)
    } else if byte == 0xd6 {
        (Instruction::DEC(AddressingMode::ZeroPageX), 6)
    } else if byte == 0xca {
        (Instruction::DEX(AddressingMode::Implied), 2)
    } else if byte == 0x88 {
        (Instruction::DEY(AddressingMode::Implied), 2)
    } else if byte == 0x4d {
        (Instruction::EOR(AddressingMode::Absolute), 4)
    } else if byte == 0x5d {
        (Instruction::EOR(AddressingMode::AbsoluteX), 4)
    } else if byte == 0x59 {
        (Instruction::EOR(AddressingMode::AbsoluteY), 4)
    } else if byte == 0x49 {
        (Instruction::EOR(AddressingMode::Immediate), 2)
    } else if byte == 0x41 {
        (Instruction::EOR(AddressingMode::IndirectX), 6)
    } else if byte == 0x51 {
        (Instruction::EOR(AddressingMode::IndirectY), 5)
    } else if byte == 0x45 {
        (Instruction::EOR(AddressingMode::ZeroPage), 3)
    } else if byte == 0x55 {
        (Instruction::EOR(AddressingMode::ZeroPageX), 4)
    } else if byte == 0xee {
        (Instruction::INC(AddressingMode::Absolute), 6)
    } else if byte == 0xfe {
        (Instruction::INC(AddressingMode::AbsoluteX), 7)
    } else if byte == 0xe6 {
        (Instruction::INC(AddressingMode::ZeroPage), 5)
    } else if byte == 0xf6 {
        (Instruction::INC(AddressingMode::ZeroPageX), 6)
    } else if byte == 0xe8 {
        (Instruction::INX(AddressingMode::Implied), 2)
    } else if byte == 0xc8 {
        (Instruction::INY(AddressingMode::Implied), 2)
    } else if byte == 0x4c {
        (Instruction::JMP(AddressingMode::Absolute), 3)
    } else if byte == 0x6c {
        (Instruction::JMP(AddressingMode::Indirect), 5)
    } else if byte == 0x20 {
        (Instruction::JSR(AddressingMode::Absolute), 6)
    } else if byte == 0xad {
        (Instruction::LDA(AddressingMode::Absolute), 4)
    } else if byte == 0xbd {
        (Instruction::LDA(AddressingMode::AbsoluteX), 4)
    } else if byte == 0xb9 {
        (Instruction::LDA(AddressingMode::AbsoluteY), 4)
    } else if byte == 0xa9 {
        (Instruction::LDA(AddressingMode::Immediate), 2)
    } else if byte == 0xa1 {
        (Instruction::LDA(AddressingMode::IndirectX), 6)
    } else if byte == 0xb1 {
        (Instruction::LDA(AddressingMode::IndirectY), 5)
    } else if byte == 0xa5 {
        (Instruction::LDA(AddressingMode::ZeroPage), 3)
    } else if byte == 0xb5 {
        (Instruction::LDA(AddressingMode::ZeroPageX), 4)
    } else if byte == 0xae {
        (Instruction::LDX(AddressingMode::Absolute), 4)
    } else if byte == 0xbe {
        (Instruction::LDX(AddressingMode::AbsoluteY), 4)
    } else if byte == 0xa2 {
        (Instruction::LDX(AddressingMode::Immediate), 2)
    } else if byte == 0xa6 {
        (Instruction::LDX(AddressingMode::ZeroPage), 3)
    } else if byte == 0xb6 {
        (Instruction::LDX(AddressingMode::ZeroPageY), 4)
    } else if byte == 0xac {
        (Instruction::LDY(AddressingMode::Absolute), 4)
    } else if byte == 0xbc {
        (Instruction::LDY(AddressingMode::AbsoluteX), 4)
    } else if byte == 0xa0 {
        (Instruction::LDY(AddressingMode::Immediate), 2)
    } else if byte == 0xa4 {
        (Instruction::LDY(AddressingMode::ZeroPage), 3)
    } else if byte == 0xb4 {
        (Instruction::LDY(AddressingMode::ZeroPageX), 4)
    } else if byte == 0x4e {
        (Instruction::LSR(AddressingMode::Absolute), 6)
    } else if byte == 0x5e {
        (Instruction::LSR(AddressingMode::AbsoluteX), 7)
    } else if byte == 0x4a {
        (Instruction::LSR(AddressingMode::Accumulator), 2)
    } else if byte == 0x46 {
        (Instruction::LSR(AddressingMode::ZeroPage), 5)
    } else if byte == 0x56 {
        (Instruction::LSR(AddressingMode::ZeroPageX), 6)
    } else if byte == 0xea {
        (Instruction::NOP(AddressingMode::Implied), 2)
    } else if byte == 0x0d {
        (Instruction::ORA(AddressingMode::Absolute), 4)
    } else if byte == 0x1d {
        (Instruction::ORA(AddressingMode::AbsoluteX), 4)
    } else if byte == 0x19 {
        (Instruction::ORA(AddressingMode::AbsoluteY), 4)
    } else if byte == 0x09 {
        (Instruction::ORA(AddressingMode::Immediate), 2)
    } else if byte == 0x01 {
        (Instruction::ORA(AddressingMode::IndirectX), 6)
    } else if byte == 0x11 {
        (Instruction::ORA(AddressingMode::IndirectY), 5)
    } else if byte == 0x05 {
        (Instruction::ORA(AddressingMode::ZeroPage), 3)
    } else if byte == 0x15 {
        (Instruction::ORA(AddressingMode::ZeroPageX), 4)
    } else if byte == 0x48 {
        (Instruction::PHA(AddressingMode::Implied), 3)
    } else if byte == 0x08 {
        (Instruction::PHP(AddressingMode::Implied), 3)
    } else if byte == 0x68 {
        (Instruction::PLA(AddressingMode::Implied), 4)
    } else if byte == 0x28 {
        (Instruction::PLP(AddressingMode::Implied), 4)
    } else if byte == 0x2e {
        (Instruction::ROL(AddressingMode::Absolute), 6)
    } else if byte == 0x3e {
        (Instruction::ROL(AddressingMode::AbsoluteX), 7)
    } else if byte == 0x2a {
        (Instruction::ROL(AddressingMode::Accumulator), 2)
    } else if byte == 0x26 {
        (Instruction::ROL(AddressingMode::ZeroPage), 5)
    } else if byte == 0x36 {
        (Instruction::ROL(AddressingMode::ZeroPageX), 6)
    } else if byte == 0x6e {
        (Instruction::ROR(AddressingMode::Absolute), 6)
    } else if byte == 0x7e {
        (Instruction::ROR(AddressingMode::AbsoluteX), 7)
    } else if byte == 0x6a {
        (Instruction::ROR(AddressingMode::Accumulator), 2)
    } else if byte == 0x66 {
        (Instruction::ROR(AddressingMode::ZeroPage), 5)
    } else if byte == 0x76 {
        (Instruction::ROR(AddressingMode::ZeroPageX), 6)
    } else if byte == 0x40 {
        (Instruction::RTI(AddressingMode::Implied), 6)
    } else if byte == 0x60 {
        (Instruction::RTS(AddressingMode::Implied), 6)
    } else if byte == 0xed {
        (Instruction::SBC(AddressingMode::Absolute), 4)
    } else if byte == 0xfd {
        (Instruction::SBC(AddressingMode::AbsoluteX), 4)
    } else if byte == 0xf9 {
        (Instruction::SBC(AddressingMode::AbsoluteY), 4)
    } else if byte == 0xe9 {
        (Instruction::SBC(AddressingMode::Immediate), 2)
    } else if byte == 0xe1 {
        (Instruction::SBC(AddressingMode::IndirectX), 6)
    } else if byte == 0xf1 {
        (Instruction::SBC(AddressingMode::IndirectY), 5)
    } else if byte == 0xe5 {
        (Instruction::SBC(AddressingMode::ZeroPage), 3)
    } else if byte == 0xf5 {
        (Instruction::SBC(AddressingMode::ZeroPageX), 4)
    } else if byte == 0x38 {
        (Instruction::SEC(AddressingMode::Implied), 2)
    } else if byte == 0xf8 {
        (Instruction::SED(AddressingMode::Implied), 2)
    } else if byte == 0x78 {
        (Instruction::SEI(AddressingMode::Implied), 2)
    } else if byte == 0x8d {
        (Instruction::STA(AddressingMode::Absolute), 4)
    } else if byte == 0x9d {
        (Instruction::STA(AddressingMode::AbsoluteX), 5)
    } else if byte == 0x99 {
        (Instruction::STA(AddressingMode::AbsoluteY), 5)
    } else if byte == 0x81 {
        (Instruction::STA(AddressingMode::IndirectX), 6)
    } else if byte == 0x91 {
        (Instruction::STA(AddressingMode::IndirectY), 6)
    } else if byte == 0x85 {
        (Instruction::STA(AddressingMode::ZeroPage), 3)
    } else if byte == 0x95 {
        (Instruction::STA(AddressingMode::ZeroPageX), 4)
    } else if byte == 0x8e {
        (Instruction::STX(AddressingMode::Absolute), 4)
    } else if byte == 0x86 {
        (Instruction::STX(AddressingMode::ZeroPage), 3)
    } else if byte == 0x96 {
        (Instruction::STX(AddressingMode::ZeroPageY), 4)
    } else if byte == 0x8c {
        (Instruction::STY(AddressingMode::Absolute), 4)
    } else if byte == 0x84 {
        (Instruction::STY(AddressingMode::ZeroPage), 3)
    } else if byte == 0x94 {
        (Instruction::STY(AddressingMode::ZeroPageX), 4)
    } else if byte == 0xaa {
        (Instruction::TAX(AddressingMode::Implied), 2)
    } else if byte == 0xa8 {
        (Instruction::TAY(AddressingMode::Implied), 2)
    } else if byte == 0xba {
        (Instruction::TSX(AddressingMode::Implied), 2)
    } else if byte == 0x8a {
        (Instruction::TXA(AddressingMode::Implied), 2)
    } else if byte == 0x9a {
        (Instruction::TXS(AddressingMode::Implied), 2)
    } else if byte == 0x98 {
        (Instruction::TYA(AddressingMode::Implied), 2)
    } else {
        (Instruction::Invalid(byte), 0)
    }
}

/// Decodes an opcode byte into its instruction and base cycle count.
pub fn map_byte_to_instruction(byte: u8) -> (r: (Instruction, u8))
    ensures
        r == opcode_table(byte),
{
    match byte {
        0x6d => (Instruction::ADC(AddressingMode::Absolute), 4),
        0x7d => (Instruction::ADC(AddressingMode::AbsoluteX), 4),
        0x79 => (Instruction::ADC(AddressingMode::AbsoluteY), 4),
        0x69 => (Instruction::ADC(AddressingMode::Immediate), 2),
        0x61 => (Instruction::ADC(AddressingMode::IndirectX), 6),
        0x71 => (Instruction::ADC(AddressingMode::IndirectY), 5),
        0x65 => (Instruction::ADC(AddressingMode::ZeroPage), 3),
        0x75 => (Instruction::ADC(AddressingMode::ZeroPageX), 4),
        0x2d => (Instruction::AND(AddressingMode::Absolute), 4),
        0x3d => (Instruction::AND(AddressingMode::AbsoluteX), 4),
        0x39 => (Instruction::AND(AddressingMode::AbsoluteY), 4),
        0x29 => (Instruction::AND(AddressingMode::Immediate), 2),
        0x21 => (Instruction::AND(AddressingMode::IndirectX), 6),
        0x31 => (Instruction::AND(AddressingMode::IndirectY), 5),
        0x25 => (Instruction::AND(AddressingMode::ZeroPage), 3),
        0x35 => (Instruction::AND(AddressingMode::ZeroPageX), 4),
        0x0a => (Instruction::ASL(AddressingMode::Accumulator), 2),
        0x0e => (Instruction::ASL(AddressingMode::Absolute), 6),
        0x1e => (Instruction::ASL(AddressingMode::AbsoluteX), 7),
        0x06 => (Instruction::ASL(AddressingMode::ZeroPage), 5),
        0x16 => (Instruction::ASL(AddressingMode::ZeroPageX), 6),
        0x90 => (Instruction::BCC(AddressingMode::Relative), 2),
        0xb0 => (Instruction::BCS(AddressingMode::Relative), 2),
        0xf0 => (Instruction::BEQ(AddressingMode::Relative), 2),
        0x2c => (Instruction::BIT(AddressingMode::Absolute), 4),
        0x24 => (Instruction::BIT(AddressingMode::ZeroPage), 3),
        0x30 => (Instruction::BMI(AddressingMode::Relative), 2),
        0xd0 => (Instruction::BNE(AddressingMode::Relative), 2),
        0x10 => (Instruction::BPL(AddressingMode::Relative), 2),
        0x00 => (Instruction::BRK(AddressingMode::Implied), 7),
        0x50 => (Instruction::BVC(AddressingMode::Relative), 2),
        0x70 => (Instruction::BVS(AddressingMode::Relative), 2),
        0x18 => (Instruction::CLC(AddressingMode::Implied), 2),
        0xd8 => (Instruction::CLD(AddressingMode::Implied), 2),
        0x58 => (Instruction::CLI(AddressingMode::Implied), 2),
        0xb8 => (Instruction::CLV(AddressingMode::Implied), 2),
        0xcd => (Instruction::CMP(AddressingMode::Absolute), 4),
        0xdd => (Instruction::CMP(AddressingMode::AbsoluteX), 4),
        0xd9 => (Instruction::CMP(AddressingMode::AbsoluteY), 4),
        0xc9 => (Instruction::CMP(AddressingMode::Immediate), 2),
        0xc1 => (Instruction::CMP(AddressingMode::IndirectX), 6),
        0xd1 => (Instruction::CMP(AddressingMode::IndirectY), 5),
        0xc5 => (Instruction::CMP(AddressingMode::ZeroPage), 3),
        0xd5 => (Instruction::CMP(AddressingMode::ZeroPageX), 4),
        0xec => (Instruction::CPX(AddressingMode::Absolute), 4),
        0xe0 => (Instruction::CPX(AddressingMode::Immediate), 2),
        0xe4 => (Instruction::CPX(AddressingMode::ZeroPage), 3),
        0xcc => (Instruction::CPY(AddressingMode::Absolute), 4),
        0xc0 => (Instruction::CPY(AddressingMode::Immediate), 2),
        0xc4 => (Instruction::CPY(AddressingMode::ZeroPage), 3),
        0xce => (Instruction::DEC(AddressingMode::Absolute), 6),
        0xde => (Instruction::DEC(AddressingMode::AbsoluteX), 7),
        0xc6 => (Instruction::DEC(AddressingMode::ZeroPage), 5),
        0xd6 => (Instruction::DEC(AddressingMode::ZeroPageX), 6),
        0xca => (Instruction::DEX(AddressingMode::Implied), 2),
        0x88 => (Instruction::DEY(AddressingMode::Implied), 2),
        0x4d => (Instruction::EOR(AddressingMode::Absolute), 4),
        0x5d => (Instruction::EOR(AddressingMode::AbsoluteX), 4),
        0x59 => (Instruction::EOR(AddressingMode::AbsoluteY), 4),
        0x49 => (Instruction::EOR(AddressingMode::Immediate), 2),
        0x41 => (Instruction::EOR(AddressingMode::IndirectX), 6),
        0x51 => (Instruction::EOR(AddressingMode::IndirectY), 5),
        0x45 => (Instruction::EOR(AddressingMode::ZeroPage), 3),
        0x55 => (Instruction::EOR(AddressingMode::ZeroPageX), 4),
        0xee => (Instruction::INC(AddressingMode::Absolute), 6),
        0xfe => (Instruction::INC(AddressingMode::AbsoluteX), 7),
        0xe6 => (Instruction::INC(AddressingMode::ZeroPage), 5),
        0xf6 => (Instruction::INC(AddressingMode::ZeroPageX), 6),
        0xe8 => (Instruction::INX(AddressingMode::Implied), 2),
        0xc8 => (Instruction::INY(AddressingMode::Implied), 2),
        0x4c => (Instruction::JMP(AddressingMode::Absolute), 3),
        0x6c => (Instruction::JMP(AddressingMode::Indirect), 5),
        0x20 => (Instruction::JSR(AddressingMode::Absolute), 6),
        0xad => (Instruction::LDA(AddressingMode::Absolute), 4),
        0xbd => (Instruction::LDA(AddressingMode::AbsoluteX), 4),
        0xb9 => (Instruction::LDA(AddressingMode::AbsoluteY), 4),
        0xa9 => (Instruction::LDA(AddressingMode::Immediate), 2),
        0xa1 => (Instruction::LDA(AddressingMode::IndirectX), 6),
        0xb1 => (Instruction::LDA(AddressingMode::IndirectY), 5),
        0xa5 => (Instruction::LDA(AddressingMode::ZeroPage), 3),
        0xb5 => (Instruction::LDA(AddressingMode::ZeroPageX), 4),
        0xae => (Instruction::LDX(AddressingMode::Absolute), 4),
        0xbe => (Instruction::LDX(AddressingMode::AbsoluteY), 4),
        0xa2 => (Instruction::LDX(AddressingMode::Immediate), 2),
        0xa6 => (Instruction::LDX(AddressingMode::ZeroPage), 3),
        0xb6 => (Instruction::LDX(AddressingMode::ZeroPageY), 4),
        0xac => (Instruction::LDY(AddressingMode::Absolute), 4),
        0xbc => (Instruction::LDY(AddressingMode::AbsoluteX), 4),
        0xa0 => (Instruction::LDY(AddressingMode::Immediate), 2),
        0xa4 => (Instruction::LDY(AddressingMode::ZeroPage), 3),
        0xb4 => (Instruction::LDY(AddressingMode::ZeroPageX), 4),
        0x4e => (Instruction::LSR(AddressingMode::Absolute), 6),
        0x5e => (Instruction::LSR(AddressingMode::AbsoluteX), 7),
        0x4a => (Instruction::LSR(AddressingMode::Accumulator), 2),
        0x46 => (Instruction::LSR(AddressingMode::ZeroPage), 5),
        0x56 => (Instruction::LSR(AddressingMode::ZeroPageX), 6),
        0xea => (Instruction::NOP(AddressingMode::Implied), 2),
        0x0d => (Instruction::ORA(AddressingMode::Absolute), 4),
        0x1d => (Instruction::ORA(AddressingMode::AbsoluteX), 4),
        0x19 => (Instruction::ORA(AddressingMode::AbsoluteY), 4),
        0x09 => (Instruction::ORA(AddressingMode::Immediate), 2),
        0x01 => (Instruction::ORA(AddressingMode::IndirectX), 6),
        0x11 => (Instruction::ORA(AddressingMode::IndirectY), 5),
        0x05 => (Instruction::ORA(AddressingMode::ZeroPage), 3),
        0x15 => (Instruction::ORA(AddressingMode::ZeroPageX), 4),
        0x48 => (Instruction::PHA(AddressingMode::Implied), 3),
        0x08 => (Instruction::PHP(AddressingMode::Implied), 3),
        0x68 => (Instruction::PLA(AddressingMode::Implied), 4),
        0x28 => (Instruction::PLP(AddressingMode::Implied), 4),
        0x2e => (Instruction::ROL(AddressingMode::Absolute), 6),
        0x3e => (Instruction::ROL(AddressingMode::AbsoluteX), 7),
        0x2a => (Instruction::ROL(AddressingMode::Accumulator), 2),
        0x26 => (Instruction::ROL(AddressingMode::ZeroPage), 5),
        0x36 => (Instruction::ROL(AddressingMode::ZeroPageX), 6),
        0x6e => (Instruction::ROR(AddressingMode::Absolute), 6),
        0x7e => (Instruction::ROR(AddressingMode::AbsoluteX), 7),
        0x6a => (Instruction::ROR(AddressingMode::Accumulator), 2),
        0x66 => (Instruction::ROR(AddressingMode::ZeroPage), 5),
        0x76 => (Instruction::ROR(AddressingMode::ZeroPageX), 6),
        0x40 => (Instruction::RTI(AddressingMode::Implied), 6),
        0x60 => (Instruction::RTS(AddressingMode::Implied), 6),
        0xed => (Instruction::SBC(AddressingMode::Absolute), 4),
        0xfd => (Instruction::SBC(AddressingMode::AbsoluteX), 4),
        0xf9 => (Instruction::SBC(AddressingMode::AbsoluteY), 4),
        0xe9 => (Instruction::SBC(AddressingMode::Immediate), 2),
        0xe1 => (Instruction::SBC(AddressingMode::IndirectX), 6),
        0xf1 => (Instruction::SBC(AddressingMode::IndirectY), 5),
        0xe5 => (Instruction::SBC(AddressingMode::ZeroPage), 3),
        0xf5 => (Instruction::SBC(AddressingMode::ZeroPageX), 4),
        0x38 => (Instruction::SEC(AddressingMode::Implied), 2),
        0xf8 => (Instruction::SED(AddressingMode::Implied), 2),
        0x78 => (Instruction::SEI(AddressingMode::Implied), 2),
        0x8d => (Instruction::STA(AddressingMode::Absolute), 4),
        0x9d => (Instruction::STA(AddressingMode::AbsoluteX), 5),
        0x99 => (Instruction::STA(AddressingMode::AbsoluteY), 5),
        0x81 => (Instruction::STA(AddressingMode::IndirectX), 6),
        0x91 => (Instruction::STA(AddressingMode::IndirectY), 6),
        0x85 => (Instruction::STA(AddressingMode::ZeroPage), 3),
        0x95 => (Instruction::STA(AddressingMode::ZeroPageX), 4),
        0x8e => (Instruction::STX(AddressingMode::Absolute), 4),
        0x86 => (Instruction::STX(AddressingMode::ZeroPage), 3),
        0x96 => (Instruction::STX(AddressingMode::ZeroPageY), 4),
        0x8c => (Instruction::STY(AddressingMode::Absolute), 4),
        0x84 => (Instruction::STY(AddressingMode::ZeroPage), 3),
        0x94 => (Instruction::STY(AddressingMode::ZeroPageX), 4),
        0xaa => (Instruction::TAX(AddressingMode::Implied), 2),
        0xa8 => (Instruction::TAY(AddressingMode::Implied), 2),
        0xba => (Instruction::TSX(AddressingMode::Implied), 2),
        0x8a => (Instruction::TXA(AddressingMode::Implied), 2),
        0x9a => (Instruction::TXS(AddressingMode::Implied), 2),
        0x98 => (Instruction::TYA(AddressingMode::Implied), 2),
        _ => (Instruction::Invalid(byte), 0),
    }
}

/// What decoding `byte` must give: a documented opcode is a mnemonic paired
/// with one of its permitted addressing modes and a base cycle count from 2
/// to 7; any other byte is `Invalid` carrying that byte, with no cycles.
pub open spec fn well_decoded(byte: u8, decoded: (Instruction, u8)) -> bool {
    match decoded.0 {
        Instruction::Invalid(b) => b == byte && decoded.1 == 0,
        Instruction::NMI => false,
        _ => legal_mode(decoded.0) && 2 <= decoded.1 <= 7,
    }
}

/// Every byte decodes to a legal (mnemonic, mode, cycles) triple or to
/// `Invalid` of that byte; decoding never yields `NMI`.
#[verifier::rlimit(100)]
pub proof fn lemma_decode_legal(byte: u8)
    ensures
        well_decoded(byte, opcode_table(byte)),
{
}

} // verus!
