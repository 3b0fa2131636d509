use vstd::prelude::*;

use crate::computer::bus::BusView;
use crate::computer::cpu::{
    execute, pop, push, run_branch, run_read, run_stack, signed, wrap8, branch_taken, CPU,
};
use crate::computer::cpu_structs::{AddressingMode, Instruction};

verus! {

/// ADC: for every accumulator A, operand M and carry C, the new accumulator
/// is (A + M + C) mod 256, C is set exactly when A + M + C >= 256, and V is
/// set exactly when (A ^ A') & (M ^ A') has bit 7 set. Here M is the operand
/// byte that the immediate form reads at PC.
pub proof fn lemma_adc_arithmetic(c: CPU, b: BusView)
    requires
        b.wf(),
    ensures
        ({
            let m = b.read(c.pc).1;
            let sum = c.a as int + m as int + if c.p.c { 1int } else { 0int };
            match execute(c, b, Instruction::ADC(AddressingMode::Immediate), 2) {
                Ok((c2, _, cycles)) => {
                    &&& c2.a as int == sum % 256
                    &&& c2.p.c == (sum >= 256)
                    &&& c2.p.v == ((c.a ^ c2.a) & (m ^ c2.a) & 0x80 != 0)
                    &&& cycles == 2
                },
                Err(_) => false,
            }
        }),
{
    reveal(run_read);
}

/// CMP, CPX and CPY: for every register value R and operand M, C is set
/// exactly when R >= M, Z exactly when R == M, N is bit 7 of (R - M) mod
/// 256, and the registers keep their values.
pub proof fn lemma_compare_flags(c: CPU, b: BusView, ins: Instruction)
    requires
        b.wf(),
        ins == Instruction::CMP(AddressingMode::Immediate) || ins == Instruction::CPX(
            AddressingMode::Immediate,
        ) || ins == Instruction::CPY(AddressingMode::Immediate),
    ensures
        ({
            let m = b.read(c.pc).1;
            let reg = if ins is CMP {
                c.a
            } else if ins is CPX {
                c.x
            } else {
                c.y
            };
            match execute(c, b, ins, 2) {
                Ok((c2, _, _)) => {
                    &&& c2.p.c == (reg >= m)
                    &&& c2.p.z == (reg == m)
                    &&& c2.p.n == (wrap8(reg - m) & 0x80 == 0x80)
                    &&& c2.a == c.a && c2.x == c.x && c2.y == c.y
                },
                Err(_) => false,
            }
        }),
{
    reveal(run_read);
}

/// Branches: with PC at the offset byte d, a taken branch leaves PC at
/// (PC + 1 + d) mod 65536, where PC + 1 is the address after the offset,
/// and costs one or two more cycles; a branch not taken leaves PC just past
/// the offset, two bytes past the opcode, and costs the base cycles.
pub proof fn lemma_branch_target(c: CPU, b: BusView, ins: Instruction)
    requires
        b.wf(),
        ins == Instruction::BCC(AddressingMode::Relative) || ins == Instruction::BCS(
            AddressingMode::Relative,
        ) || ins == Instruction::BEQ(AddressingMode::Relative) || ins == Instruction::BNE(
            AddressingMode::Relative,
        ) || ins == Instruction::BMI(AddressingMode::Relative) || ins == Instruction::BPL(
            AddressingMode::Relative,
        ) || ins == Instruction::BVC(AddressingMode::Relative) || ins == Instruction::BVS(
            AddressingMode::Relative,
        ),
    ensures
        ({
            let d = signed(b.read(c.pc).1);
            match execute(c, b, ins, 2) {
                Ok((c2, _, cycles)) => if branch_taken(c.p, ins) {
                    c2.pc as int == (c.pc as int + 1 + d) % 0x10000 && 3 <= cycles <= 4
                } else {
                    c2.pc as int == (c.pc as int + 1) % 0x10000 && cycles == 2
                },
                Err(_) => false,
            }
        }),
{
    reveal(run_branch);
}

/// A push followed by a pop returns the pushed byte and restores SP; more
/// than that, every register is as before.
pub proof fn lemma_push_pop(c: CPU, b: BusView, v: u8)
    requires
        b.wf(),
    ensures
        ({
            let (c1, b1) = push(c, b, v);
            let (c2, _, r) = pop(c1, b1);
            r == v && c2.sp == c.sp && c2 == c
        }),
{
    reveal(BusView::read);
    reveal(BusView::write);
}

/// PHA followed by PLA leaves the accumulator and the stack pointer as they were.
pub proof fn lemma_pha_pla(c: CPU, b: BusView)
    requires
        b.wf(),
    ensures
        match execute(c, b, Instruction::PHA(AddressingMode::Implied), 3) {
            Ok((c1, b1, _)) => match execute(c1, b1, Instruction::PLA(AddressingMode::Implied), 4) {
                Ok((c2, _, _)) => c2.a == c.a && c2.sp == c.sp,
                Err(_) => false,
            },
            Err(_) => false,
        },
{
    reveal(run_stack);
    lemma_push_pop(c, b, c.a);
    reveal(BusView::write);
}

} // verus!
