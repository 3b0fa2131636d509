use vstd::prelude::*;

pub mod bus;
pub mod cartridge;
pub mod cpu;
pub mod cpu_structs;
pub mod laws;
pub mod listing;
pub mod palette;
pub mod ppu;
pub mod status;

use crate::computer::bus::{Bus, BusView};
use crate::computer::cpu::{execute, fetch, power_up, ExecError, CPU};
use crate::computer::cpu_structs::{
    lemma_decode_legal, map_byte_to_instruction, opcode_table, Instruction,
};
use crate::computer::ppu::{PpuView, CTRL_GENERATE_NMI, FRAME_BUFFER_SIZE};

verus! {

/// Scanlines in one frame.
pub const PPU_SCANLINES_PER_FRAME: u64 = 262;
/// PPU cycles in one scanline.
pub const PPU_CYCLES_PER_SCANLINE: u64 = 341;
/// PPU cycles in one frame.
pub const PPU_CYCLES_PER_FRAME: u64 = PPU_SCANLINES_PER_FRAME * PPU_CYCLES_PER_SCANLINE;
/// CPU cycles in one frame: the PPU runs three cycles per CPU cycle.
pub const CPU_CYCLES_PER_FRAME: u64 = PPU_CYCLES_PER_FRAME / 3;
/// Cycles charged for entering the NMI handler.
pub const NMI_CYCLES: u8 = 7;

/// What a step of the machine reached.
#[derive(Copy, Clone, Debug, PartialEq, Eq, Structural)]
pub enum StepEvent {
    /// the frame is still running
    Running,
    /// a frame's worth of cycles elapsed with NMI generation off
    FrameElapsed,
    /// a frame's worth of cycles elapsed with NMI generation on: the frame
    /// is ready to draw and the NMI handler is due
    VBlank,
}

/// The processor and its address space, which holds the PPU.
pub struct Computer {
    pub cpu: CPU,
    pub address_space: Bus,
    /// cycles counted by `tick`, modulo 2^64
    pub clock: u64,
}

pub open spec fn wrap64(x: int) -> u64 {
    (x % 0x1_0000_0000_0000_0000) as u64
}

/// One step: fetch the opcode at PC, decode it, execute it, and count its
/// cycles towards the frame. When a frame's worth has elapsed the count
/// restarts at zero. On failure the state is that after the opcode fetch.
pub open spec fn step(c: CPU, b: BusView) -> (CPU, BusView, Result<StepEvent, ExecError>) {
    let (c1, b1, opcode) = fetch(c, b);
    let (ins, base) = opcode_table(opcode);
    match execute(c1, b1, ins, base) {
        Err(e) => (c1, b1, Err(e)),
        Ok((c2, b2, n)) => {
            let t = wrap64(c2.time_since_last_frame + n);
            if t >= CPU_CYCLES_PER_FRAME {
                let c3 = CPU { time_since_last_frame: 0, ..c2 };
                if b2.ppu.ctrl & CTRL_GENERATE_NMI == CTRL_GENERATE_NMI {
                    (c3, b2, Ok(StepEvent::VBlank))
                } else {
                    (c3, b2, Ok(StepEvent::FrameElapsed))
                }
            } else {
                (CPU { time_since_last_frame: t, ..c2 }, b2, Ok(StepEvent::Running))
            }
        },
    }
}

/// Entering the NMI handler, with its cycles counted towards the frame.
pub open spec fn enter_nmi(c: CPU, b: BusView) -> (CPU, BusView) {
    match execute(c, b, Instruction::NMI, NMI_CYCLES) {
        Ok((c1, b1, n)) => (CPU { time_since_last_frame: wrap64(c1.time_since_last_frame + n), ..c1 }, b1),
        Err(_) => (c, b),
    }
}

/// Steps until PC equals `exit_pc` (`Ok(true)`), until `fuel` steps have
/// run (`Ok(false)`), or until a step fails.
pub open spec fn run_until(c: CPU, b: BusView, exit_pc: u16, fuel: nat) -> (
    CPU,
    BusView,
    Result<bool, ExecError>,
)
    decreases fuel,
{
    if c.pc == exit_pc {
        (c, b, Ok(true))
    } else if fuel == 0 {
        (c, b, Ok(false))
    } else {
        let (c1, b1, r) = step(c, b);
        match r {
            Err(e) => (c1, b1, Err(e)),
            Ok(_) => run_until(c1, b1, exit_pc, (fuel - 1) as nat),
        }
    }
}

/// Steps until vertical blank with NMI generation on, then takes the PPU's
/// state for drawing and enters the NMI handler (`Ok(Some(ppu))`); or until
/// `fuel` steps have run (`Ok(None)`); or until a step fails.
pub open spec fn run_frame(c: CPU, b: BusView, fuel: nat) -> (
    CPU,
    BusView,
    Result<Option<PpuView>, ExecError>,
)
    decreases fuel,
{
    if fuel == 0 {
        (c, b, Ok(None))
    } else {
        let (c1, b1, r) = step(c, b);
        match r {
            Err(e) => (c1, b1, Err(e)),
            Ok(StepEvent::VBlank) => {
                let (c2, b2) = enter_nmi(c1, b1);
                (c2, b2, Ok(Some(b1.ppu)))
            },
            Ok(_) => run_frame(c1, b1, (fuel - 1) as nat),
        }
    }
}

impl Computer {
    pub open spec fn wf(&self) -> bool {
        self.address_space.wf()
    }

    /// Powered-up registers, zeroed memory and a PPU in vertical blank.
    pub fn new() -> (r: Computer)
        ensures
            r.wf(),
            r.cpu == power_up(),
            r.address_space.powered_up(),
            r.clock == 0,
    {
        Computer { cpu: CPU::new(), address_space: Bus::new(), clock: 0 }
    }

    /// Adds `num` to the machine's clock, modulo 2^64.
    pub fn tick(&mut self, num: u8)
        ensures
            final(self).clock == wrap64(old(self).clock + num),
            final(self).cpu == old(self).cpu,
            final(self).address_space@ == old(self).address_space@,
    {
        self.clock = self.clock.wrapping_add(num as u64);
    }

    /// Fetches, decodes and executes one instruction and counts its cycles
    /// towards the frame.
    pub fn step(&mut self) -> (r: Result<StepEvent, ExecError>)
        requires
            old(self).wf(),
        ensures
            final(self).wf(),
            (final(self).cpu, final(self).address_space@, r) == step(
                old(self).cpu,
                old(self).address_space@,
            ),
            final(self).clock == old(self).clock,
    {
        let opcode = self.cpu.fetch_instruction(&mut self.address_space);
        let (instruction, minimum_ticks) = map_byte_to_instruction(opcode);
        proof {
            lemma_decode_legal(opcode);
        }
        if let Instruction::Invalid(byte) = instruction {
            return Err(ExecError::DecodeInvalid { byte, pc: self.cpu.pc });
        }
        let ticks = match self.cpu.process_instruction(
            instruction,
            minimum_ticks,
            &mut self.address_space,
        ) {
            Ok(n) => n,
            Err(e) => return Err(e),
        };
        let t = self.cpu.time_since_last_frame.wrapping_add(ticks as u64);
        if t >= CPU_CYCLES_PER_FRAME {
            self.cpu.time_since_last_frame = 0;
            if self.address_space.ppu.ppu_ctrl & CTRL_GENERATE_NMI == CTRL_GENERATE_NMI {
                Ok(StepEvent::VBlank)
            } else {
                Ok(StepEvent::FrameElapsed)
            }
        } else {
            self.cpu.time_since_last_frame = t;
            Ok(StepEvent::Running)
        }
    }

    /// Enters the NMI handler: pushes PC and the status with B clear, sets
    /// I, jumps through $FFFA/$FFFB, and counts 7 cycles towards the frame.
    pub fn nmi(&mut self)
        requires
            old(self).wf(),
        ensures
            final(self).wf(),
            (final(self).cpu, final(self).address_space@) == enter_nmi(
                old(self).cpu,
                old(self).address_space@,
            ),
            final(self).clock == old(self).clock,
    {
        if let Ok(n) = self.cpu.process_instruction(
            Instruction::NMI,
            NMI_CYCLES,
            &mut self.address_space,
        ) {
            self.cpu.time_since_last_frame = self.cpu.time_since_last_frame.wrapping_add(n as u64);
        }
    }

    /// Runs instructions until PC equals `exit_pc` (`Ok(true)`) or until
    /// `max_instructions` have run (`Ok(false)`). An undocumented opcode
    /// stops the run with its error.
    pub fn run_until(&mut self, exit_pc: u16, max_instructions: u64) -> (r: Result<bool, ExecError>)
        requires
            old(self).wf(),
        ensures
            final(self).wf(),
            (final(self).cpu, final(self).address_space@, r) == run_until(
                old(self).cpu,
                old(self).address_space@,
                exit_pc,
                max_instructions as nat,
            ),
    {
        let mut remaining = max_instructions;
        loop
            invariant
                self.wf(),
                run_until(self.cpu, self.address_space@, exit_pc, remaining as nat) == run_until(
                    old(self).cpu,
                    old(self).address_space@,
                    exit_pc,
                    max_instructions as nat,
                ),
            decreases remaining,
        {
            if self.cpu.pc == exit_pc {
                return Ok(true);
            }
            if remaining == 0 {
                return Ok(false);
            }
            if let Err(e) = self.step() {
                return Err(e);
            }
            remaining = remaining - 1;
        }
    }

    /// Runs instructions until vertical blank with NMI generation on, then
    /// draws the background frame and enters the NMI handler, returning the
    /// frame; `Ok(None)` when `max_instructions` ran without reaching it.
    pub fn run_frame(&mut self, max_instructions: u64) -> (r: Result<
        Option<Vec<(u8, u8, u8)>>,
        ExecError,
    >)
        requires
            old(self).wf(),
        ensures
            final(self).wf(),
            ({
                let (c, b, s) = run_frame(
                    old(self).cpu,
                    old(self).address_space@,
                    max_instructions as nat,
                );
                &&& final(self).cpu == c
                &&& final(self).address_space@ == b
                &&& match (s, r) {
                    (Ok(Some(p)), Ok(Some(frame))) => {
                        &&& frame@.len() == FRAME_BUFFER_SIZE
                        &&& forall|x: int, y: int|
                            0 <= x < 256 && 0 <= y < 240 ==> #[trigger] frame@[y * 256 + x]
                                == p.frame_pixel(x, y)
                    },
                    (Ok(None), Ok(None)) => true,
                    (Err(e1), Err(e2)) => e1 == e2,
                    _ => false,
                }
            }),
    {
        let mut remaining = max_instructions;
        loop
            invariant
                self.wf(),
                run_frame(self.cpu, self.address_space@, remaining as nat) == run_frame(
                    old(self).cpu,
                    old(self).address_space@,
                    max_instructions as nat,
                ),
            decreases remaining,
        {
            if remaining == 0 {
                return Ok(None);
            }
            match self.step() {
                Err(e) => return Err(e),
                Ok(StepEvent::VBlank) => {
                    let frame = self.address_space.ppu.render_frame();
                    self.nmi();
                    return Ok(Some(frame));
                },
                Ok(_) => {},
            }
            remaining = remaining - 1;
        }
    }
}

impl Default for Computer {
    fn default() -> (r: Computer)
        ensures
            r.wf(),
            r.cpu == power_up(),
            r.address_space.powered_up(),
            r.clock == 0,
    {
        Computer::new()
    }
}

} // verus!
