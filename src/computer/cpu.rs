use vstd::prelude::*;

use crate::computer::bus::{Bus, BusView, ReadWrite};
use crate::computer::cpu_structs::{legal_mode, permits_mode, AddressingMode, Instruction};
use crate::computer::status::{pack, unpack, StatusRegister, B};

verus! {

/// The registers of the 2A03, with its cycle counters.
#[derive(Copy, Clone, Debug, PartialEq, Eq, Structural)]
pub struct CPU {
    /// accumulator
    pub a: u8,
    /// index register X
    pub x: u8,
    /// index register Y
    pub y: u8,
    /// stack pointer: the stack's next free byte is $0100 + sp
    pub sp: u8,
    /// program counter
    pub pc: u16,
    /// status register
    pub p: StatusRegister,
    /// read/write pin
    pub rw: ReadWrite,
    /// interrupt request pin
    pub irq: bool,
    /// non-maskable interrupt pin
    pub nmi: bool,
    /// cycles charged since power-up, modulo 2^64
    pub clock: u64,
    /// cycles charged since the last frame boundary
    pub time_since_last_frame: u64,
}

/// Why an instruction could not be executed. Each carries the program
/// counter at the time of the failure.
#[derive(Copy, Clone, Debug, PartialEq, Eq, Structural)]
pub enum ExecError {
    /// an undocumented opcode
    DecodeInvalid { byte: u8, pc: u16 },
    /// a mnemonic paired with an addressing mode that it does not permit
    ModeMismatch { instruction: Instruction, pc: u16 },
}

pub open spec fn wrap8(x: int) -> u8 {
    (x % 256) as u8
}

pub open spec fn wrap16(x: int) -> u16 {
    (x % 0x10000) as u16
}

/// The little-endian 16-bit word of two bytes.
pub open spec fn word(lo: u8, hi: u8) -> u16 {
    (hi as int * 256 + lo as int) as u16
}

/// Whether two addresses lie in the same 256-byte page.
pub open spec fn same_page(a: u16, b: u16) -> bool {
    a as int / 256 == b as int / 256
}

/// A byte read as a two's-complement offset.
pub open spec fn signed(b: u8) -> int {
    if b < 128 {
        b as int
    } else {
        b as int - 256
    }
}

/// Z and N set from `v`, the other flags kept.
pub open spec fn with_nz(p: StatusRegister, v: u8) -> StatusRegister {
    StatusRegister { z: v == 0, n: v & 0x80 == 0x80, ..p }
}

/// Reads the byte at PC and moves PC on by one, wrapping at 16 bits.
pub open spec fn fetch(c: CPU, b: BusView) -> (CPU, BusView, u8) {
    let (b1, v) = b.read(c.pc);
    (CPU { pc: wrap16(c.pc + 1), ..c }, b1, v)
}

/// Fetches a little-endian word from the instruction stream.
pub open spec fn fetch_word(c: CPU, b: BusView) -> (CPU, BusView, u16) {
    let (c1, b1, lo) = fetch(c, b);
    let (c2, b2, hi) = fetch(c1, b1);
    (c2, b2, word(lo, hi))
}

/// Reads a word whose two bytes are at `lo_at` and `hi_at`.
pub open spec fn read_word(b: BusView, lo_at: u16, hi_at: u16) -> (BusView, u16) {
    let (b1, lo) = b.read(lo_at);
    let (b2, hi) = b1.read(hi_at);
    (b2, word(lo, hi))
}

/// The modes whose operand is a memory address.
pub open spec fn is_resolvable(am: AddressingMode) -> bool {
    !(am == AddressingMode::Accumulator || am == AddressingMode::Implied || am
        == AddressingMode::Immediate || am == AddressingMode::Relative)
}

/// Absolute: the address is the next word of the stream.
pub open spec fn absolute(c: CPU, b: BusView) -> (CPU, BusView, u16, bool) {
    let (c1, b1, a) = fetch_word(c, b);
    (c1, b1, a, false)
}

/// Absolute indexed: the next word plus `index`, wrapping at 16 bits, and
/// whether that left the word's page.
pub open spec fn absolute_indexed(c: CPU, b: BusView, index: u8) -> (CPU, BusView, u16, bool) {
    let (c1, b1, base) = fetch_word(c, b);
    let e = wrap16(base + index);
    (c1, b1, e, !same_page(base, e))
}

/// Indirect (JMP only): the word at the pointer that the stream holds; its
/// high byte comes from the pointer's own page, so $xxFF pairs with $xx00.
pub open spec fn indirect(c: CPU, b: BusView) -> (CPU, BusView, u16, bool) {
    let (c1, b1, ptr) = fetch_word(c, b);
    let hi_at = (ptr as int / 256 * 256 + (ptr as int % 256 + 1) % 256) as u16;
    let (b2, a) = read_word(b1, ptr, hi_at);
    (c1, b2, a, false)
}

/// Indexed indirect: the word at zero-page pointer (zp + X) mod 256, its
/// high byte at the next zero-page address.
pub open spec fn indirect_x(c: CPU, b: BusView) -> (CPU, BusView, u16, bool) {
    let (c1, b1, zp) = fetch(c, b);
    let ptr = wrap8(zp + c.x);
    let (b2, a) = read_word(b1, ptr as u16, wrap8(ptr + 1) as u16);
    (c1, b2, a, false)
}

/// Indirect indexed: the word at zero-page pointer zp plus Y, wrapping at
/// 16 bits, and whether that left the word's page.
pub open spec fn indirect_y(c: CPU, b: BusView) -> (CPU, BusView, u16, bool) {
    let (c1, b1, zp) = fetch(c, b);
    let (b2, base) = read_word(b1, zp as u16, wrap8(zp + 1) as u16);
    let e = wrap16(base + c.y);
    (c1, b2, e, !same_page(base, e))
}

/// Zero page, indexed or not: (zp + index) mod 256.
pub open spec fn zero_page_indexed(c: CPU, b: BusView, index: u8) -> (CPU, BusView, u16, bool) {
    let (c1, b1, zp) = fetch(c, b);
    (c1, b1, wrap8(zp + index) as u16, false)
}

/// The effective address of `am`, fetching its operand bytes, and whether
/// indexing crossed a page.
pub open spec fn resolve(c: CPU, b: BusView, am: AddressingMode) -> (CPU, BusView, u16, bool) {
    match am {
        AddressingMode::Absolute => absolute(c, b),
        AddressingMode::AbsoluteX => absolute_indexed(c, b, c.x),
        AddressingMode::AbsoluteY => absolute_indexed(c, b, c.y),
        AddressingMode::Indirect => indirect(c, b),
        AddressingMode::IndirectX => indirect_x(c, b),
        AddressingMode::IndirectY => indirect_y(c, b),
        AddressingMode::ZeroPage => zero_page_indexed(c, b, 0),
        AddressingMode::ZeroPageX => zero_page_indexed(c, b, c.x),
        AddressingMode::ZeroPageY => zero_page_indexed(c, b, c.y),
        _ => (c, b, 0, false),
    }
}

/// The operand byte of `am`: the next byte of the stream when immediate,
/// else the byte at the effective address; and whether a page was crossed.
pub open spec fn operand(c: CPU, b: BusView, am: AddressingMode) -> (CPU, BusView, u8, bool) {
    if am == AddressingMode::Immediate {
        let (c1, b1, v) = fetch(c, b);
        (c1, b1, v, false)
    } else {
        let (c1, b1, a, crossed) = resolve(c, b, am);
        let (b2, v) = b1.read(a);
        (c1, b2, v, crossed)
    }
}

/// Add with carry: A + M + C, with carry out and signed overflow.
pub open spec fn adc(c: CPU, m: u8) -> CPU {
    let sum = c.a as int + m as int + if c.p.c { 1int } else { 0int };
    let r = wrap8(sum);
    CPU {
        a: r,
        p: StatusRegister { c: sum > 255, v: (c.a ^ r) & (m ^ r) & 0x80 != 0, ..with_nz(c.p, r) },
        ..c
    }
}

/// The flags after comparing `reg` with `m`: C when reg >= m, Z and N from
/// reg - m modulo 256.
pub open spec fn compare(p: StatusRegister, reg: u8, m: u8) -> StatusRegister {
    StatusRegister { c: reg >= m, ..with_nz(p, wrap8(reg - m)) }
}

/// The effect of an instruction that consumes one operand byte `m`.
pub open spec fn apply_operand(c: CPU, ins: Instruction, m: u8) -> CPU {
    match ins {
        Instruction::ADC(_) => adc(c, m),
        Instruction::SBC(_) => adc(c, !m),
        Instruction::AND(_) => CPU { a: c.a & m, p: with_nz(c.p, c.a & m), ..c },
        Instruction::EOR(_) => CPU { a: c.a ^ m, p: with_nz(c.p, c.a ^ m), ..c },
        Instruction::ORA(_) => CPU { a: c.a | m, p: with_nz(c.p, c.a | m), ..c },
        Instruction::LDA(_) => CPU { a: m, p: with_nz(c.p, m), ..c },
        Instruction::LDX(_) => CPU { x: m, p: with_nz(c.p, m), ..c },
        Instruction::LDY(_) => CPU { y: m, p: with_nz(c.p, m), ..c },
        Instruction::CMP(_) => CPU { p: compare(c.p, c.a, m), ..c },
        Instruction::CPX(_) => CPU { p: compare(c.p, c.x, m), ..c },
        Instruction::CPY(_) => CPU { p: compare(c.p, c.y, m), ..c },
        Instruction::BIT(_) => CPU {
            p: StatusRegister { v: m & 0x40 == 0x40, n: m & 0x80 == 0x80, z: c.a & m == 0, ..c.p },
            ..c
        },
        _ => c,
    }
}

/// The instructions that consume one operand byte.
pub open spec fn reads_operand(ins: Instruction) -> bool {
    ins is ADC || ins is SBC || ins is AND || ins is EOR || ins is ORA || ins is LDA || ins is LDX
        || ins is LDY || ins is CMP || ins is CPX || ins is CPY || ins is BIT
}

/// The instructions that pay one more cycle when indexing crosses a page.
pub open spec fn pays_page_penalty(ins: Instruction) -> bool {
    ins is ADC || ins is AND || ins is CMP || ins is EOR || ins is LDA || ins is LDX || ins is LDY
        || ins is ORA || ins is SBC
}

/// A shift or rotate of `v`: the result and the bit shifted out, which
/// becomes C. Rotates feed the old carry into the vacated bit.
pub open spec fn shift(ins: Instruction, v: u8, carry: bool) -> (u8, bool) {
    match ins {
        Instruction::ASL(_) => (v << 1, v & 0x80 == 0x80),
        Instruction::LSR(_) => (v >> 1, v & 1 == 1),
        Instruction::ROL(_) => (if carry { (v << 1) | 1 } else { v << 1 }, v & 0x80 == 0x80),
        Instruction::ROR(_) => (if carry { (v >> 1) | 0x80 } else { v >> 1 }, v & 1 == 1),
        _ => (v, carry),
    }
}

/// Whether the condition of a branch instruction holds.
pub open spec fn branch_taken(p: StatusRegister, ins: Instruction) -> bool {
    match ins {
        Instruction::BCC(_) => !p.c,
        Instruction::BCS(_) => p.c,
        Instruction::BEQ(_) => p.z,
        Instruction::BNE(_) => !p.z,
        Instruction::BMI(_) => p.n,
        Instruction::BPL(_) => !p.n,
        Instruction::BVC(_) => !p.v,
        Instruction::BVS(_) => p.v,
        _ => false,
    }
}

/// Fetches the signed offset; when `taken`, PC moves by it, wrapping at 16
/// bits. Also whether the new PC lies in another page.
pub open spec fn branch(c: CPU, b: BusView, taken: bool) -> (CPU, BusView, bool) {
    let (c1, b1, off) = fetch(c, b);
    if taken {
        let target = wrap16(c1.pc + signed(off));
        (CPU { pc: target, ..c1 }, b1, !same_page(c1.pc, target))
    } else {
        (c1, b1, false)
    }
}

/// Writes `v` at $0100 + SP, then SP decreases by one, wrapping.
pub open spec fn push(c: CPU, b: BusView, v: u8) -> (CPU, BusView) {
    (CPU { sp: wrap8(c.sp - 1), ..c }, b.write((0x100 + c.sp) as u16, v))
}

/// SP increases by one, wrapping, then the byte at $0100 + SP is read.
pub open spec fn pop(c: CPU, b: BusView) -> (CPU, BusView, u8) {
    let sp = wrap8(c.sp + 1);
    let (b1, v) = b.read((0x100 + sp) as u16);
    (CPU { sp: sp, ..c }, b1, v)
}

/// Pushes the high byte of `w`, then the low byte.
pub open spec fn push_word(c: CPU, b: BusView, w: u16) -> (CPU, BusView) {
    let (c1, b1) = push(c, b, (w as int / 256) as u8);
    push(c1, b1, (w as int % 256) as u8)
}

/// Pops the low byte, then the high byte.
pub open spec fn pop_word(c: CPU, b: BusView) -> (CPU, BusView, u16) {
    let (c1, b1, lo) = pop(c, b);
    let (c2, b2, hi) = pop(c1, b1);
    (c2, b2, word(lo, hi))
}

/// The status register loaded from a pulled byte: bits 4 and 5 of the byte
/// are ignored and B keeps its value.
pub open spec fn pulled(p: StatusRegister, byte: u8) -> StatusRegister {
    StatusRegister { b: p.b, ..unpack(byte) }
}

/// Interrupt entry: pushes `ret` and then `status`, sets I, and loads PC
/// from the vector at `vector`.
pub open spec fn interrupt(c: CPU, b: BusView, ret: u16, status: u8, vector: u16) -> (CPU, BusView) {
    let (c1, b1) = push_word(c, b, ret);
    let (c2, b2) = push(c1, b1, status);
    let (b3, target) = read_word(b2, vector, wrap16(vector + 1));
    (CPU { pc: target, p: StatusRegister { i: true, ..c2.p }, ..c2 }, b3)
}

/// The effect of an implied-mode instruction that touches registers only.
pub open spec fn apply_implied(c: CPU, ins: Instruction) -> CPU {
    match ins {
        Instruction::CLC(_) => CPU { p: StatusRegister { c: false, ..c.p }, ..c },
        Instruction::CLD(_) => CPU { p: StatusRegister { d: false, ..c.p }, ..c },
        Instruction::CLI(_) => CPU { p: StatusRegister { i: false, ..c.p }, ..c },
        Instruction::CLV(_) => CPU { p: StatusRegister { v: false, ..c.p }, ..c },
        Instruction::SEC(_) => CPU { p: StatusRegister { c: true, ..c.p }, ..c },
        Instruction::SED(_) => CPU { p: StatusRegister { d: true, ..c.p }, ..c },
        Instruction::SEI(_) => CPU { p: StatusRegister { i: true, ..c.p }, ..c },
        Instruction::DEX(_) => CPU { x: wrap8(c.x - 1), p: with_nz(c.p, wrap8(c.x - 1)), ..c },
        Instruction::DEY(_) => CPU { y: wrap8(c.y - 1), p: with_nz(c.p, wrap8(c.y - 1)), ..c },
        Instruction::INX(_) => CPU { x: wrap8(c.x + 1), p: with_nz(c.p, wrap8(c.x + 1)), ..c },
        Instruction::INY(_) => CPU { y: wrap8(c.y + 1), p: with_nz(c.p, wrap8(c.y + 1)), ..c },
        Instruction::TAX(_) => CPU { x: c.a, p: with_nz(c.p, c.a), ..c },
        Instruction::TAY(_) => CPU { y: c.a, p: with_nz(c.p, c.a), ..c },
        Instruction::TSX(_) => CPU { x: c.sp, p: with_nz(c.p, c.sp), ..c },
        Instruction::TXA(_) => CPU { a: c.x, p: with_nz(c.p, c.x), ..c },
        Instruction::TYA(_) => CPU { a: c.y, p: with_nz(c.p, c.y), ..c },
        Instruction::TXS(_) => CPU { sp: c.x, ..c },
        _ => c,
    }
}

pub open spec fn is_register_op(ins: Instruction) -> bool {
    ins is CLC || ins is CLD || ins is CLI || ins is CLV || ins is SEC || ins is SED || ins is SEI
        || ins is DEX || ins is DEY || ins is INX || ins is INY || ins is TAX || ins is TAY
        || ins is TSX || ins is TXA || ins is TYA || ins is TXS || ins is NOP
}

/// The register a store instruction writes.
pub open spec fn stored(c: CPU, ins: Instruction) -> u8 {
    match ins {
        Instruction::STX(_) => c.x,
        Instruction::STY(_) => c.y,
        _ => c.a,
    }
}

/// An instruction that consumes one operand byte.
#[verifier::opaque]
pub open spec fn run_read(c: CPU, b: BusView, ins: Instruction, am: AddressingMode) -> (CPU, BusView, u8) {
    let (c1, b1, m, crossed) = operand(c, b, am);
    (apply_operand(c1, ins, m), b1, if crossed && pays_page_penalty(ins) { 1 } else { 0 })
}

/// A shift or rotate of A, or of a byte in memory (read, modify, write).
#[verifier::opaque]
pub open spec fn run_shift(c: CPU, b: BusView, ins: Instruction, am: AddressingMode) -> (CPU, BusView, u8) {
    if am == AddressingMode::Accumulator {
        let (r, out) = shift(ins, c.a, c.p.c);
        (CPU { a: r, p: StatusRegister { c: out, ..with_nz(c.p, r) }, ..c }, b, 0)
    } else {
        let (c1, b1, a, _) = resolve(c, b, am);
        let (b2, v) = b1.read(a);
        let (r, out) = shift(ins, v, c.p.c);
        (CPU { p: StatusRegister { c: out, ..with_nz(c1.p, r) }, ..c1 }, b2.write(a, r), 0)
    }
}

/// INC or DEC of a byte in memory.
#[verifier::opaque]
pub open spec fn run_step(c: CPU, b: BusView, ins: Instruction, am: AddressingMode) -> (CPU, BusView, u8) {
    let (c1, b1, a, _) = resolve(c, b, am);
    let (b2, v) = b1.read(a);
    let r = if ins is INC { wrap8(v + 1) } else { wrap8(v - 1) };
    (CPU { p: with_nz(c1.p, r), ..c1 }, b2.write(a, r), 0)
}

/// STA, STX or STY.
#[verifier::opaque]
pub open spec fn run_store(c: CPU, b: BusView, ins: Instruction, am: AddressingMode) -> (CPU, BusView, u8) {
    let (c1, b1, a, _) = resolve(c, b, am);
    (c1, b1.write(a, stored(c, ins)), 0)
}

/// A conditional branch: one more cycle when taken, two when the target
/// lies in another page.
#[verifier::opaque]
pub open spec fn run_branch(c: CPU, b: BusView, ins: Instruction) -> (CPU, BusView, u8) {
    let taken = branch_taken(c.p, ins);
    let (c1, b1, crossed) = branch(c, b, taken);
    (c1, b1, if taken && crossed { 2 } else if taken { 1 } else { 0 })
}

/// JMP, JSR, RTS, RTI, BRK and NMI.
#[verifier::opaque]
pub open spec fn run_control(c: CPU, b: BusView, ins: Instruction) -> (CPU, BusView, u8) {
    match ins {
        Instruction::JMP(am) => {
            let (c1, b1, a, _) = resolve(c, b, am);
            (CPU { pc: a, ..c1 }, b1, 0)
        },
        Instruction::JSR(am) => {
            // the return address pushed is that of the last byte of the JSR
            let (c1, b1, a, _) = resolve(c, b, am);
            let (c2, b2) = push_word(c1, b1, wrap16(c.pc + 1));
            (CPU { pc: a, ..c2 }, b2, 0)
        },
        Instruction::RTS(_) => {
            let (c1, b1, w) = pop_word(c, b);
            (CPU { pc: wrap16(w + 1), ..c1 }, b1, 0)
        },
        Instruction::RTI(_) => {
            let (c1, b1, status) = pop(c, b);
            let (c2, b2, w) = pop_word(c1, b1);
            (CPU { pc: w, p: pulled(c.p, status), ..c2 }, b2, 0)
        },
        Instruction::BRK(_) => {
            // the byte after BRK is padding: the return address skips it
            let (c1, b1) = interrupt(c, b, wrap16(c.pc + 1), pack(c.p) | B, 0xFFFE);
            (c1, b1, 0)
        },
        _ => {
            let (c1, b1) = interrupt(c, b, c.pc, pack(c.p) & !B, 0xFFFA);
            (c1, b1, 0)
        },
    }
}

/// PHA, PHP, PLA and PLP.
#[verifier::opaque]
pub open spec fn run_stack(c: CPU, b: BusView, ins: Instruction) -> (CPU, BusView, u8) {
    match ins {
        Instruction::PHA(_) => {
            let (c1, b1) = push(c, b, c.a);
            (c1, b1, 0)
        },
        Instruction::PHP(_) => {
            let (c1, b1) = push(c, b, pack(c.p) | B);
            (c1, b1, 0)
        },
        Instruction::PLA(_) => {
            let (c1, b1, v) = pop(c, b);
            (CPU { a: v, p: with_nz(c1.p, v), ..c1 }, b1, 0)
        },
        _ => {
            let (c1, b1, v) = pop(c, b);
            (CPU { p: pulled(c1.p, v), ..c1 }, b1, 0)
        },
    }
}

/// The state after a legal instruction whose opcode has been fetched, and
/// the cycles it costs beyond its base count.
pub open spec fn run(c: CPU, b: BusView, ins: Instruction) -> (CPU, BusView, u8) {
    match ins {
        Instruction::ADC(am) | Instruction::SBC(am) | Instruction::AND(am) | Instruction::EOR(am)
        | Instruction::ORA(am) | Instruction::LDA(am) | Instruction::LDX(am) | Instruction::LDY(am)
        | Instruction::CMP(am) | Instruction::CPX(am) | Instruction::CPY(am) | Instruction::BIT(
            am,
        ) => run_read(c, b, ins, am),
        Instruction::ASL(am) | Instruction::LSR(am) | Instruction::ROL(am) | Instruction::ROR(am) => {
            run_shift(c, b, ins, am)
        },
        Instruction::INC(am) | Instruction::DEC(am) => run_step(c, b, ins, am),
        Instruction::STA(am) | Instruction::STX(am) | Instruction::STY(am) => run_store(c, b, ins, am),
        Instruction::BCC(_) | Instruction::BCS(_) | Instruction::BEQ(_) | Instruction::BNE(_)
        | Instruction::BMI(_) | Instruction::BPL(_) | Instruction::BVC(_) | Instruction::BVS(_) => {
            run_branch(c, b, ins)
        },
        Instruction::JMP(_) | Instruction::JSR(_) | Instruction::RTS(_) | Instruction::RTI(_)
        | Instruction::BRK(_) | Instruction::NMI => run_control(c, b, ins),
        Instruction::PHA(_) | Instruction::PHP(_) | Instruction::PLA(_) | Instruction::PLP(_) => {
            run_stack(c, b, ins)
        },
        _ => (apply_implied(c, ins), b, 0),
    }
}

/// Executing `ins` with `base` cycles, its opcode already fetched: the new
/// registers, the new bus, and the cycles charged, which the clock also
/// counts. An undocumented opcode or an illegal addressing mode fails and
/// changes nothing.
pub open spec fn execute(c: CPU, b: BusView, ins: Instruction, base: u8) -> Result<
    (CPU, BusView, u8),
    ExecError,
> {
    match ins {
        Instruction::Invalid(byte) => Err(ExecError::DecodeInvalid { byte: byte, pc: c.pc }),
        _ => if !legal_mode(ins) {
            Err(ExecError::ModeMismatch { instruction: ins, pc: c.pc })
        } else {
            let (c1, b1, extra) = run(c, b, ins);
            let cycles = (base + extra) as u8;
            Ok((CPU { clock: ((c1.clock + cycles) % 0x1_0000_0000_0000_0000) as u64, ..c1 }, b1, cycles))
        },
    }
}

/// The registers at power-up: all zero, every flag clear, the read pin set.
pub open spec fn power_up() -> CPU {
    CPU {
        a: 0,
        x: 0,
        y: 0,
        sp: 0,
        pc: 0,
        p: unpack(0),
        rw: ReadWrite::Read,
        irq: false,
        nmi: false,
        clock: 0,
        time_since_last_frame: 0,
    }
}

impl CPU {
    /// All registers, flags and counters zero.
    pub fn new() -> (r: CPU)
        ensures
            r == power_up(),
    {
        CPU {
            a: 0,
            x: 0,
            y: 0,
            sp: 0,
            pc: 0,
            p: StatusRegister::new(),
            rw: ReadWrite::Read,
            irq: false,
            nmi: false,
            clock: 0,
            time_since_last_frame: 0,
        }
    }

    /// Adds `num` cycles to the clock, modulo 2^64.
    pub fn tick(&mut self, num: u8)
        ensures
            *final(self) == (CPU {
                clock: ((old(self).clock + num) % 0x1_0000_0000_0000_0000) as u64,
                ..*old(self)
            }),
    {
        self.clock = self.clock.wrapping_add(num as u64);
    }

    /// Moves PC on by one, wrapping at 16 bits.
    pub fn step_pc(&mut self)
        ensures
            *final(self) == (CPU { pc: wrap16(old(self).pc + 1), ..*old(self) }),
    {
        self.pc = self.pc.wrapping_add(1);
    }

    /// Reads the byte at PC through the bus, then moves PC on by one.
    pub fn fetch_instruction(&mut self, memory: &mut Bus) -> (r: u8)
        requires
            old(memory).wf(),
        ensures
            final(memory).wf(),
            (*final(self), final(memory)@, r) == fetch(*old(self), old(memory)@),
            final(self).pc as int == (old(self).pc as int + 1) % 0x10000,
    {
        let index = self.pc;
        self.step_pc();
        memory.read(index)
    }

    fn fetch_word(&mut self, memory: &mut Bus) -> (r: u16)
        requires
            old(memory).wf(),
        ensures
            final(memory).wf(),
            (*final(self), final(memory)@, r) == fetch_word(*old(self), old(memory)@),
    {
        let lo = self.fetch_instruction(memory);
        let hi = self.fetch_instruction(memory);
        hi as u16 * 256 + lo as u16
    }

    /// The effective address of a memory addressing mode, fetching its
    /// operand bytes, and whether indexing crossed a page.
    pub fn resolve_address_fetch(&mut self, am: AddressingMode, memory: &mut Bus) -> (r: (u16, bool))
        requires
            old(memory).wf(),
            is_resolvable(am),
        ensures
            final(memory).wf(),
            (*final(self), final(memory)@, r.0, r.1) == resolve(*old(self), old(memory)@, am),
    {
        match am {
            AddressingMode::Absolute => self.resolve_absolute(memory),
            AddressingMode::AbsoluteX => self.resolve_absolute_indexed(self.x, memory),
            AddressingMode::AbsoluteY => self.resolve_absolute_indexed(self.y, memory),
            AddressingMode::Indirect => self.resolve_indirect(memory),
            AddressingMode::IndirectX => self.resolve_indirect_x(memory),
            AddressingMode::IndirectY => self.resolve_indirect_y(memory),
            AddressingMode::ZeroPage => self.resolve_zero_page_indexed(0, memory),
            AddressingMode::ZeroPageX => self.resolve_zero_page_indexed(self.x, memory),
            _ => self.resolve_zero_page_indexed(self.y, memory),
        }
    }

    fn resolve_absolute(&mut self, memory: &mut Bus) -> (r: (u16, bool))
        requires
            old(memory).wf(),
        ensures
            final(memory).wf(),
            (*final(self), final(memory)@, r.0, r.1) == absolute(*old(self), old(memory)@),
    {
        let address = self.fetch_word(memory);
        (address, false)
    }

    fn resolve_absolute_indexed(&mut self, index: u8, memory: &mut Bus) -> (r: (u16, bool))
        requires
            old(memory).wf(),
        ensures
            final(memory).wf(),
            (*final(self), final(memory)@, r.0, r.1) == absolute_indexed(
                *old(self),
                old(memory)@,
                index,
            ),
    {
        let base = self.fetch_word(memory);
        offset_by(base, index)
    }

    fn resolve_indirect(&mut self, memory: &mut Bus) -> (r: (u16, bool))
        requires
            old(memory).wf(),
        ensures
            final(memory).wf(),
            (*final(self), final(memory)@, r.0, r.1) == indirect(*old(self), old(memory)@),
    {
        let ptr = self.fetch_word(memory);
        let hi_at = same_page_successor(ptr);
        let address = bus_read_word(memory, ptr, hi_at);
        (address, false)
    }

    fn resolve_indirect_x(&mut self, memory: &mut Bus) -> (r: (u16, bool))
        requires
            old(memory).wf(),
        ensures
            final(memory).wf(),
            (*final(self), final(memory)@, r.0, r.1) == indirect_x(*old(self), old(memory)@),
    {
        let zp = self.fetch_instruction(memory);
        let ptr = zp.wrapping_add(self.x);
        let address = bus_read_word(memory, ptr as u16, ptr.wrapping_add(1) as u16);
        (address, false)
    }

    fn resolve_indirect_y(&mut self, memory: &mut Bus) -> (r: (u16, bool))
        requires
            old(memory).wf(),
        ensures
            final(memory).wf(),
            (*final(self), final(memory)@, r.0, r.1) == indirect_y(*old(self), old(memory)@),
    {
        let index = self.y;
        let zp = self.fetch_instruction(memory);
        let base = bus_read_word(memory, zp as u16, zp.wrapping_add(1) as u16);
        offset_by(base, index)
    }

    fn resolve_zero_page_indexed(&mut self, index: u8, memory: &mut Bus) -> (r: (u16, bool))
        requires
            old(memory).wf(),
        ensures
            final(memory).wf(),
            (*final(self), final(memory)@, r.0, r.1) == zero_page_indexed(
                *old(self),
                old(memory)@,
                index,
            ),
    {
        let zp = self.fetch_instruction(memory);
        (zp.wrapping_add(index) as u16, false)
    }

    /// The operand byte of `am` and whether fetching it crossed a page.
    fn read_operand(&mut self, am: AddressingMode, memory: &mut Bus) -> (r: (u8, bool))
        requires
            old(memory).wf(),
            am == AddressingMode::Immediate || is_resolvable(am),
        ensures
            final(memory).wf(),
            (*final(self), final(memory)@, r.0, r.1) == operand(*old(self), old(memory)@, am),
    {
        if am == AddressingMode::Immediate {
            let value = self.fetch_instruction(memory);
            (value, false)
        } else {
            let (address, crossed) = self.resolve_address_fetch(am, memory);
            let value = memory.read(address);
            (value, crossed)
        }
    }

    fn set_status_nz(&mut self, test_val: u8)
        ensures
            *final(self) == (CPU { p: with_nz(old(self).p, test_val), ..*old(self) }),
    {
        self.p.z = test_val == 0;
        self.p.n = test_val & 0x80 == 0x80;
    }

    /// A := A + `addend` + C, setting C on unsigned and V on signed overflow.
    fn adc_logic(&mut self, addend: u8)
        ensures
            *final(self) == adc(*old(self), addend),
    {
        let carry: u16 = if self.p.c {
            1
        } else {
            0
        };
        let sum: u16 = self.a as u16 + addend as u16 + carry;
        let result = (sum % 256) as u8;
        self.p.v = (self.a ^ result) & (addend ^ result) & 0x80 != 0;
        self.p.c = sum > 255;
        self.a = result;
        self.set_status_nz(result);
    }

    /// Sets C when `reg` >= `m`, and Z and N from `reg` - `m` modulo 256.
    fn compare(&mut self, reg: u8, m: u8)
        ensures
            *final(self) == (CPU { p: compare(old(self).p, reg, m), ..*old(self) }),
    {
        self.p.c = reg >= m;
        self.set_status_nz(reg.wrapping_sub(m));
    }

    #[verifier::rlimit(100)]
    fn apply_operand(&mut self, ins: Instruction, m: u8)
        requires
            reads_operand(ins),
        ensures
            *final(self) == apply_operand(*old(self), ins, m),
    {
        match ins {
            Instruction::ADC(_) => self.adc_logic(m),
            Instruction::SBC(_) => self.adc_logic(!m),
            Instruction::AND(_) => {
                self.a = self.a & m;
                self.set_status_nz(self.a);
            },
            Instruction::EOR(_) => {
                self.a = self.a ^ m;
                self.set_status_nz(self.a);
            },
            Instruction::ORA(_) => {
                self.a = self.a | m;
                self.set_status_nz(self.a);
            },
            Instruction::LDA(_) => {
                self.a = m;
                self.set_status_nz(m);
            },
            Instruction::LDX(_) => {
                self.x = m;
                self.set_status_nz(m);
            },
            Instruction::LDY(_) => {
                self.y = m;
                self.set_status_nz(m);
            },
            Instruction::CMP(_) => self.compare(self.a, m),
            Instruction::CPX(_) => self.compare(self.x, m),
            Instruction::CPY(_) => self.compare(self.y, m),
            _ => {
                self.p.v = m & 0x40 == 0x40;
                self.p.n = m & 0x80 == 0x80;
                self.p.z = self.a & m == 0;
            },
        }
    }

    /// Takes the branch when `condition` holds; returns whether the new PC
    /// lies in another page.
    fn branch_if(&mut self, condition: bool, memory: &mut Bus) -> (r: bool)
        requires
            old(memory).wf(),
        ensures
            final(memory).wf(),
            (*final(self), final(memory)@, r) == branch(*old(self), old(memory)@, condition),
    {
        let offset = self.fetch_instruction(memory);
        if condition {
            // sign-extend the offset to 16 bits, then add with 16-bit wrap
            let extended: u16 = if offset >= 0x80 {
                offset as u16 + 0xFF00
            } else {
                offset as u16
            };
            let target = self.pc.wrapping_add(extended);
            let crossed = self.pc / 256 != target / 256;
            self.pc = target;
            crossed
        } else {
            false
        }
    }

    fn push_stack(&mut self, byte: u8, memory: &mut Bus)
        requires
            old(memory).wf(),
        ensures
            final(memory).wf(),
            (*final(self), final(memory)@) == push(*old(self), old(memory)@, byte),
    {
        memory.write(0x100 + self.sp as u16, byte);
        self.sp = self.sp.wrapping_sub(1);
    }

    fn pop_stack(&mut self, memory: &mut Bus) -> (r: u8)
        requires
            old(memory).wf(),
        ensures
            final(memory).wf(),
            (*final(self), final(memory)@, r) == pop(*old(self), old(memory)@),
    {
        self.sp = self.sp.wrapping_add(1);
        memory.read(0x100 + self.sp as u16)
    }

    fn push_word(&mut self, w: u16, memory: &mut Bus)
        requires
            old(memory).wf(),
        ensures
            final(memory).wf(),
            (*final(self), final(memory)@) == push_word(*old(self), old(memory)@, w),
    {
        self.push_stack((w / 256) as u8, memory);
        self.push_stack((w % 256) as u8, memory);
    }

    fn pop_word(&mut self, memory: &mut Bus) -> (r: u16)
        requires
            old(memory).wf(),
        ensures
            final(memory).wf(),
            (*final(self), final(memory)@, r) == pop_word(*old(self), old(memory)@),
    {
        let lo = self.pop_stack(memory);
        let hi = self.pop_stack(memory);
        hi as u16 * 256 + lo as u16
    }

    fn interrupt(&mut self, ret: u16, status: u8, vector: u16, memory: &mut Bus)
        requires
            old(memory).wf(),
        ensures
            final(memory).wf(),
            (*final(self), final(memory)@) == interrupt(
                *old(self),
                old(memory)@,
                ret,
                status,
                vector,
            ),
    {
        self.push_word(ret, memory);
        self.push_stack(status, memory);
        self.pc = bus_read_word(memory, vector, vector.wrapping_add(1));
        self.p.i = true;
    }

    #[verifier::rlimit(100)]
    fn apply_implied(&mut self, ins: Instruction)
        requires
            is_register_op(ins),
        ensures
            *final(self) == apply_implied(*old(self), ins),
    {
        match ins {
            Instruction::CLC(_) => self.p.c = false,
            Instruction::CLD(_) => self.p.d = false,
            Instruction::CLI(_) => self.p.i = false,
            Instruction::CLV(_) => self.p.v = false,
            Instruction::SEC(_) => self.p.c = true,
            Instruction::SED(_) => self.p.d = true,
            Instruction::SEI(_) => self.p.i = true,
            Instruction::DEX(_) => {
                self.x = self.x.wrapping_sub(1);
                self.set_status_nz(self.x);
            },
            Instruction::DEY(_) => {
                self.y = self.y.wrapping_sub(1);
                self.set_status_nz(self.y);
            },
            Instruction::INX(_) => {
                self.x = self.x.wrapping_add(1);
                self.set_status_nz(self.x);
            },
            Instruction::INY(_) => {
                self.y = self.y.wrapping_add(1);
                self.set_status_nz(self.y);
            },
            Instruction::TAX(_) => {
                self.x = self.a;
                self.set_status_nz(self.x);
            },
            Instruction::TAY(_) => {
                self.y = self.a;
                self.set_status_nz(self.y);
            },
            Instruction::TSX(_) => {
                self.x = self.sp;
                self.set_status_nz(self.x);
            },
            Instruction::TXA(_) => {
                self.a = self.x;
                self.set_status_nz(self.a);
            },
            Instruction::TYA(_) => {
                self.a = self.y;
                self.set_status_nz(self.a);
            },
            Instruction::TXS(_) => self.sp = self.x,
            _ => {},
        }
    }
}

impl CPU {
    /// Executes a decoded instruction whose opcode has been fetched, with
    /// `minimum_ticks` base cycles: consumes its operand bytes, updates the
    /// registers and the bus, charges the clock, and returns the cycles
    /// charged. An undocumented opcode or an addressing mode that the
    /// mnemonic does not permit is refused, with nothing changed.
    pub fn process_instruction(
        &mut self,
        instruction: Instruction,
        minimum_ticks: u8,
        memory: &mut Bus,
    ) -> (r: Result<u8, ExecError>)
        requires
            old(memory).wf(),
            minimum_ticks <= 253,
        ensures
            final(memory).wf(),
            match execute(*old(self), old(memory)@, instruction, minimum_ticks) {
                Ok((c, b, n)) => {
                    &&& r == Ok::<u8, ExecError>(n)
                    &&& *final(self) == c
                    &&& final(memory)@ == b
                },
                Err(e) => {
                    &&& r == Err::<u8, ExecError>(e)
                    &&& *final(self) == *old(self)
                    &&& final(memory)@ == old(memory)@
                },
            },
    {
        if let Instruction::Invalid(byte) = instruction {
            return Err(ExecError::DecodeInvalid { byte, pc: self.pc });
        }
        if !permits_mode(instruction) {
            return Err(ExecError::ModeMismatch { instruction, pc: self.pc });
        }
        let extra = self.execute_legal(instruction, memory);
        let num_ticks = minimum_ticks + extra;
        self.tick(num_ticks);
        Ok(num_ticks)
    }

    fn execute_legal(&mut self, ins: Instruction, memory: &mut Bus) -> (r: u8)
        requires
            old(memory).wf(),
            legal_mode(ins),
        ensures
            final(memory).wf(),
            (*final(self), final(memory)@, r) == run(*old(self), old(memory)@, ins),
            r <= 2,
    {
        match ins {
            Instruction::ADC(am) | Instruction::SBC(am) | Instruction::AND(am) | Instruction::EOR(am)
            | Instruction::ORA(am) | Instruction::LDA(am) | Instruction::LDX(am) | Instruction::LDY(
                am,
            ) | Instruction::CMP(am) | Instruction::CPX(am) | Instruction::CPY(am)
            | Instruction::BIT(am) => self.execute_read(ins, am, memory),
            Instruction::ASL(am) | Instruction::LSR(am) | Instruction::ROL(am) | Instruction::ROR(
                am,
            ) => self.execute_shift(ins, am, memory),
            Instruction::INC(am) | Instruction::DEC(am) => self.execute_step(ins, am, memory),
            Instruction::STA(am) | Instruction::STX(am) | Instruction::STY(am) => {
                self.execute_store(ins, am, memory)
            },
            Instruction::BCC(_) | Instruction::BCS(_) | Instruction::BEQ(_) | Instruction::BNE(_)
            | Instruction::BMI(_) | Instruction::BPL(_) | Instruction::BVC(_) | Instruction::BVS(_) => {
                self.execute_branch(ins, memory)
            },
            Instruction::JMP(_) | Instruction::JSR(_) | Instruction::RTS(_) | Instruction::RTI(_)
            | Instruction::BRK(_) | Instruction::NMI => self.execute_control(ins, memory),
            Instruction::PHA(_) | Instruction::PHP(_) | Instruction::PLA(_) | Instruction::PLP(_) => {
                self.execute_stack(ins, memory)
            },
            _ => {
                self.apply_implied(ins);
                0
            },
        }
    }

    fn execute_store(&mut self, ins: Instruction, am: AddressingMode, memory: &mut Bus) -> (r: u8)
        requires
            old(memory).wf(),
            is_resolvable(am),
        ensures
            final(memory).wf(),
            (*final(self), final(memory)@, r) == run_store(*old(self), old(memory)@, ins, am),
            r == 0,
    {
        reveal(run_store);
        let value = match ins {
            Instruction::STX(_) => self.x,
            Instruction::STY(_) => self.y,
            _ => self.a,
        };
        let (address, _) = self.resolve_address_fetch(am, memory);
        memory.write(address, value);
        0
    }

    fn execute_branch(&mut self, ins: Instruction, memory: &mut Bus) -> (r: u8)
        requires
            old(memory).wf(),
        ensures
            final(memory).wf(),
            (*final(self), final(memory)@, r) == run_branch(*old(self), old(memory)@, ins),
            r <= 2,
    {
        reveal(run_branch);
        let taken = branch_condition(self.p, ins);
        let crossed = self.branch_if(taken, memory);
        if taken && crossed {
            2
        } else if taken {
            1
        } else {
            0
        }
    }

    #[verifier::rlimit(100)]
    fn execute_control(&mut self, ins: Instruction, memory: &mut Bus) -> (r: u8)
        requires
            old(memory).wf(),
            legal_mode(ins),
            ins is JMP || ins is JSR || ins is RTS || ins is RTI || ins is BRK || ins is NMI,
        ensures
            final(memory).wf(),
            (*final(self), final(memory)@, r) == run_control(*old(self), old(memory)@, ins),
            r == 0,
    {
        reveal(run_control);
        match ins {
            Instruction::JMP(am) => {
                let (address, _) = self.resolve_address_fetch(am, memory);
                self.pc = address;
            },
            Instruction::JSR(am) => {
                let to_be_pushed = self.pc.wrapping_add(1);
                let (address, _) = self.resolve_address_fetch(am, memory);
                self.push_word(to_be_pushed, memory);
                self.pc = address;
            },
            Instruction::RTS(_) => {
                let address = self.pop_word(memory);
                self.pc = address.wrapping_add(1);
            },
            Instruction::RTI(_) => {
                let status = self.pop_stack(memory);
                let old_p = self.p;
                let address = self.pop_word(memory);
                self.p = old_p;
                self.pull_status(status);
                self.pc = address;
            },
            Instruction::BRK(_) => {
                let status = self.p.to_byte() | B;
                self.interrupt(self.pc.wrapping_add(1), status, 0xFFFE, memory);
            },
            _ => {
                let status = self.p.to_byte() & !B;
                self.interrupt(self.pc, status, 0xFFFA, memory);
            },
        }
        0
    }

    fn execute_stack(&mut self, ins: Instruction, memory: &mut Bus) -> (r: u8)
        requires
            old(memory).wf(),
        ensures
            final(memory).wf(),
            (*final(self), final(memory)@, r) == run_stack(*old(self), old(memory)@, ins),
            r == 0,
    {
        reveal(run_stack);
        match ins {
            Instruction::PHA(_) => self.push_stack(self.a, memory),
            Instruction::PHP(_) => {
                let status = self.p.to_byte() | B;
                self.push_stack(status, memory);
            },
            Instruction::PLA(_) => {
                self.a = self.pop_stack(memory);
                self.set_status_nz(self.a);
            },
            _ => {
                let status = self.pop_stack(memory);
                self.pull_status(status);
            },
        }
        0
    }

    /// Loads the flags from a pulled byte, ignoring its bits 4 and 5: B keeps its value.
    fn pull_status(&mut self, status: u8)
        ensures
            *final(self) == (CPU { p: pulled(old(self).p, status), ..*old(self) }),
    {
        let b = self.p.b;
        self.p.set_from_byte(status);
        self.p.b = b;
    }

    fn execute_read(&mut self, ins: Instruction, am: AddressingMode, memory: &mut Bus) -> (r: u8)
        requires
            old(memory).wf(),
            legal_mode(ins),
            reads_operand(ins),
            ins == Instruction::ADC(am) || ins == Instruction::SBC(am) || ins == Instruction::AND(am)
                || ins == Instruction::EOR(am) || ins == Instruction::ORA(am) || ins
                == Instruction::LDA(am) || ins == Instruction::LDX(am) || ins == Instruction::LDY(am)
                || ins == Instruction::CMP(am) || ins == Instruction::CPX(am) || ins
                == Instruction::CPY(am) || ins == Instruction::BIT(am),
        ensures
            final(memory).wf(),
            (*final(self), final(memory)@, r) == run_read(*old(self), old(memory)@, ins, am),
            r <= 1,
    {
        reveal(run_read);
        let (m, crossed) = self.read_operand(am, memory);
        self.apply_operand(ins, m);
        if crossed && page_penalty(ins) {
            1
        } else {
            0
        }
    }

    fn execute_shift(&mut self, ins: Instruction, am: AddressingMode, memory: &mut Bus) -> (r: u8)
        requires
            old(memory).wf(),
            legal_mode(ins),
            ins == Instruction::ASL(am) || ins == Instruction::LSR(am) || ins == Instruction::ROL(am)
                || ins == Instruction::ROR(am),
        ensures
            final(memory).wf(),
            (*final(self), final(memory)@, r) == run_shift(*old(self), old(memory)@, ins, am),
            r == 0,
    {
        reveal(run_shift);
        let carry = self.p.c;
        if am == AddressingMode::Accumulator {
            let (result, out) = shift_value(ins, self.a, carry);
            self.a = result;
            self.set_status_nz(result);
            self.p.c = out;
        } else {
            let (address, _) = self.resolve_address_fetch(am, memory);
            let value = memory.read(address);
            let (result, out) = shift_value(ins, value, carry);
            self.set_status_nz(result);
            self.p.c = out;
            memory.write(address, result);
        }
        0
    }

    fn execute_step(&mut self, ins: Instruction, am: AddressingMode, memory: &mut Bus) -> (r: u8)
        requires
            old(memory).wf(),
            legal_mode(ins),
            ins == Instruction::INC(am) || ins == Instruction::DEC(am),
        ensures
            final(memory).wf(),
            (*final(self), final(memory)@, r) == run_step(*old(self), old(memory)@, ins, am),
            r == 0,
    {
        reveal(run_step);
        let (address, _) = self.resolve_address_fetch(am, memory);
        let value = memory.read(address);
        let result = match ins {
            Instruction::INC(_) => value.wrapping_add(1),
            _ => value.wrapping_sub(1),
        };
        self.set_status_nz(result);
        memory.write(address, result);
        0
    }
}

/// Whether `ins` pays one more cycle when indexing crosses a page.
fn page_penalty(ins: Instruction) -> (r: bool)
    ensures
        r == pays_page_penalty(ins),
{
    match ins {
        Instruction::ADC(_) | Instruction::AND(_) | Instruction::CMP(_) | Instruction::EOR(_)
        | Instruction::LDA(_) | Instruction::LDX(_) | Instruction::LDY(_) | Instruction::ORA(_)
        | Instruction::SBC(_) => true,
        _ => false,
    }
}

/// The result of a shift or rotate of `v` and the bit shifted out.
fn shift_value(ins: Instruction, v: u8, carry: bool) -> (r: (u8, bool))
    ensures
        r == shift(ins, v, carry),
{
    match ins {
        Instruction::ASL(_) => (v << 1, v & 0x80 == 0x80),
        Instruction::LSR(_) => (v >> 1, v & 1 == 1),
        Instruction::ROL(_) => (if carry { (v << 1) | 1 } else { v << 1 }, v & 0x80 == 0x80),
        Instruction::ROR(_) => (if carry { (v >> 1) | 0x80 } else { v >> 1 }, v & 1 == 1),
        _ => (v, carry),
    }
}

/// Whether the condition of a branch instruction holds.
fn branch_condition(p: StatusRegister, ins: Instruction) -> (r: bool)
    ensures
        r == branch_taken(p, ins),
{
    match ins {
        Instruction::BCC(_) => !p.c,
        Instruction::BCS(_) => p.c,
        Instruction::BEQ(_) => p.z,
        Instruction::BNE(_) => !p.z,
        Instruction::BMI(_) => p.n,
        Instruction::BPL(_) => !p.n,
        Instruction::BVC(_) => !p.v,
        Instruction::BVS(_) => p.v,
        _ => false,
    }
}

/// `base` plus `index` with 16-bit wrap, and whether that left base's page.
fn offset_by(base: u16, index: u8) -> (r: (u16, bool))
    ensures
        r.0 == wrap16(base + index),
        r.1 == !same_page(base, r.0),
{
    let effective = base.wrapping_add(index as u16);
    (effective, base / 256 != effective / 256)
}

/// The address after `ptr` within ptr's own page: $xxFF is followed by $xx00.
fn same_page_successor(ptr: u16) -> (r: u16)
    ensures
        r == (ptr as int / 256 * 256 + (ptr as int % 256 + 1) % 256) as u16,
{
    ptr / 256 * 256 + (ptr % 256 + 1) % 256
}

/// Reads a word whose low byte is at `lo_at` and high byte at `hi_at`.
fn bus_read_word(memory: &mut Bus, lo_at: u16, hi_at: u16) -> (r: u16)
    requires
        old(memory).wf(),
    ensures
        final(memory).wf(),
        (final(memory)@, r) == read_word(old(memory)@, lo_at, hi_at),
{
    let lo = memory.read(lo_at);
    let hi = memory.read(hi_at);
    hi as u16 * 256 + lo as u16
}

impl Default for CPU {
    fn default() -> (r: CPU)
        ensures
            r == power_up(),
    {
        CPU::new()
    }
}

} // verus!
