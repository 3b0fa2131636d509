use vstd::prelude::*;

use crate::computer::bus::CPU_MEMORY_SIZE;
use crate::computer::cpu::word;
use crate::computer::Computer;

verus! {

/// Length of the iNES header that precedes the ROM banks.
pub const INES_HEADER_SIZE: usize = 16;
/// Size of the NROM-128 PRG-ROM bank.
pub const PRG_ROM_SIZE: usize = 0x4000;
/// Size of the CHR-ROM bank.
pub const CHR_ROM_SIZE: usize = 0x2000;

/// Why a program could not be loaded.
#[derive(Copy, Clone, Debug, PartialEq, Eq, Structural)]
pub enum LoadError {
    /// the image ends before the banks that it must hold
    Truncated,
    /// a listing line does not have the shape `offset: hh hh ...`
    Malformed,
    /// the bytes would run past the end of memory
    OutOfMemory,
}

impl Computer {
    /// Copies a raw program image into memory from `memory_entry_point` on,
    /// as far as memory reaches, and sets PC to `pc`. Returns how many bytes
    /// were copied.
    pub fn load_image(&mut self, image: &Vec<u8>, memory_entry_point: usize, pc: u16) -> (r: usize)
        requires
            old(self).wf(),
            memory_entry_point <= CPU_MEMORY_SIZE,
        ensures
            final(self).wf(),
            r == if image@.len() < CPU_MEMORY_SIZE - memory_entry_point {
                image@.len() as int
            } else {
                CPU_MEMORY_SIZE - memory_entry_point
            },
            final(self).cpu == (crate::computer::cpu::CPU { pc: pc, ..old(self).cpu }),
            final(self).address_space.bytes@ == old(self).address_space.bytes@.take(
                memory_entry_point as int,
            ) + image@.take(r as int) + old(self).address_space.bytes@.skip(
                memory_entry_point + r,
            ),
            final(self).address_space.ppu@ == old(self).address_space.ppu@,
            final(self).clock == old(self).clock,
    {
        let room = CPU_MEMORY_SIZE - memory_entry_point;
        let count = if image.len() < room {
            image.len()
        } else {
            room
        };
        let mut i: usize = 0;
        while i < count
            invariant
                i <= count,
                count <= image@.len(),
                memory_entry_point + count <= CPU_MEMORY_SIZE,
                self.wf(),
                self.address_space.ppu@ == old(self).address_space.ppu@,
                self.cpu == old(self).cpu,
                self.clock == old(self).clock,
                forall|j: int|
                    0 <= j < CPU_MEMORY_SIZE ==> #[trigger] self.address_space.bytes@[j] == if memory_entry_point <= j < memory_entry_point + i {
                        image@[j - memory_entry_point]
                    } else {
                        old(self).address_space.bytes@[j]
                    },
            decreases count - i,
        {
            self.address_space.bytes.set(memory_entry_point + i, image[i]);
            i = i + 1;
        }
        self.cpu.pc = pc;
        assert(self.address_space.bytes@ =~= old(self).address_space.bytes@.take(
            memory_entry_point as int,
        ) + image@.take(count as int) + old(self).address_space.bytes@.skip(
            memory_entry_point + count,
        ));
        count
    }

    /// Loads an NROM-128 cartridge image: after the 16-byte header, the
    /// 16 KiB PRG-ROM bank goes to `memory_entry_point` and again 16 KiB
    /// higher (the mirror), the 8 KiB CHR-ROM bank that follows goes to the
    /// start of PPU memory, and PC is set to the reset vector at $FFFC/$FFFD.
    /// An image too short for both banks is refused, with nothing changed.
    pub fn load_nrom_128(&mut self, image: &Vec<u8>, memory_entry_point: usize) -> (r: Result<(), LoadError>)
        requires
            old(self).wf(),
            memory_entry_point + 2 * PRG_ROM_SIZE <= CPU_MEMORY_SIZE,
        ensures
            final(self).wf(),
            final(self).clock == old(self).clock,
            image@.len() < INES_HEADER_SIZE + PRG_ROM_SIZE + CHR_ROM_SIZE ==> {
                &&& r == Err::<(), LoadError>(LoadError::Truncated)
                &&& final(self).cpu == old(self).cpu
                &&& final(self).address_space@ == old(self).address_space@
            },
            image@.len() >= INES_HEADER_SIZE + PRG_ROM_SIZE + CHR_ROM_SIZE ==> {
                let bytes = final(self).address_space.bytes@;
                let vram = final(self).address_space.ppu.memory@;
                &&& r == Ok::<(), LoadError>(())
                &&& forall|j: int|
                    0 <= j < CPU_MEMORY_SIZE ==> #[trigger] bytes[j] == if memory_entry_point <= j
                        < memory_entry_point + 2 * PRG_ROM_SIZE {
                        image@[INES_HEADER_SIZE + (j - memory_entry_point) % (PRG_ROM_SIZE as int)]
                    } else {
                        old(self).address_space.bytes@[j]
                    }
                &&& forall|j: int|
                    0 <= j < 0x4000 ==> #[trigger] vram[j] == if j < CHR_ROM_SIZE {
                        image@[INES_HEADER_SIZE + PRG_ROM_SIZE + j]
                    } else {
                        old(self).address_space.ppu.memory@[j]
                    }
                &&& vram.len() == 0x4000
                &&& final(self).address_space@ == (crate::computer::bus::BusView {
                    bytes: bytes,
                    ppu: crate::computer::ppu::PpuView { memory: vram, ..old(self).address_space.ppu@ },
                    ..old(self).address_space@
                })
                &&& final(self).cpu == (crate::computer::cpu::CPU {
                    pc: word(bytes[0xFFFC], bytes[0xFFFD]),
                    ..old(self).cpu
                })
            },
    {
        if image.len() < INES_HEADER_SIZE + PRG_ROM_SIZE + CHR_ROM_SIZE {
            return Err(LoadError::Truncated);
        }
        let ghost old_bytes = self.address_space.bytes@;
        let ghost old_vram = self.address_space.ppu.memory@;
        let mirror = memory_entry_point + PRG_ROM_SIZE;
        let mut i: usize = 0;
        while i < PRG_ROM_SIZE
            invariant
                i <= PRG_ROM_SIZE,
                mirror == memory_entry_point + PRG_ROM_SIZE,
                memory_entry_point + 2 * PRG_ROM_SIZE <= CPU_MEMORY_SIZE,
                image@.len() >= INES_HEADER_SIZE + PRG_ROM_SIZE + CHR_ROM_SIZE,
                self.wf(),
                self.address_space.ppu@ == old(self).address_space.ppu@,
                self.address_space@ == (crate::computer::bus::BusView {
                    bytes: self.address_space.bytes@,
                    ..old(self).address_space@
                }),
                self.cpu == old(self).cpu,
                self.clock == old(self).clock,
                old_bytes == old(self).address_space.bytes@,
                forall|j: int|
                    0 <= j < CPU_MEMORY_SIZE ==> #[trigger] self.address_space.bytes@[j] == if memory_entry_point <= j < memory_entry_point + i {
                        image@[INES_HEADER_SIZE + j - memory_entry_point]
                    } else if mirror <= j < mirror + i {
                        image@[INES_HEADER_SIZE + j - mirror]
                    } else {
                        old_bytes[j]
                    },
            decreases PRG_ROM_SIZE - i,
        {
            let byte = image[INES_HEADER_SIZE + i];
            self.address_space.bytes.set(memory_entry_point + i, byte);
            self.address_space.bytes.set(mirror + i, byte);
            i = i + 1;
        }
        let mut k: usize = 0;
        while k < CHR_ROM_SIZE
            invariant
                k <= CHR_ROM_SIZE,
                image@.len() >= INES_HEADER_SIZE + PRG_ROM_SIZE + CHR_ROM_SIZE,
                self.wf(),
                self.address_space.bytes@.len() == CPU_MEMORY_SIZE,
                self.address_space@ == (crate::computer::bus::BusView {
                    bytes: self.address_space.bytes@,
                    ppu: crate::computer::ppu::PpuView {
                        memory: self.address_space.ppu.memory@,
                        ..old(self).address_space.ppu@
                    },
                    ..old(self).address_space@
                }),
                forall|j: int|
                    0 <= j < CPU_MEMORY_SIZE ==> #[trigger] self.address_space.bytes@[j] == if memory_entry_point <= j < memory_entry_point + 2 * PRG_ROM_SIZE {
                        image@[INES_HEADER_SIZE + (j - memory_entry_point) % (PRG_ROM_SIZE as int)]
                    } else {
                        old_bytes[j]
                    },
                self.cpu == old(self).cpu,
                self.clock == old(self).clock,
                old_vram == old(self).address_space.ppu.memory@,
                forall|j: int|
                    0 <= j < 0x4000 ==> #[trigger] self.address_space.ppu.memory@[j] == if j < k {
                        image@[INES_HEADER_SIZE + PRG_ROM_SIZE + j]
                    } else {
                        old_vram[j]
                    },
            decreases CHR_ROM_SIZE - k,
        {
            let byte = image[INES_HEADER_SIZE + PRG_ROM_SIZE + k];
            self.address_space.ppu.memory.set(k, byte);
            k = k + 1;
        }
        let lo = self.address_space.bytes[0xFFFC];
        let hi = self.address_space.bytes[0xFFFD];
        self.cpu.pc = hi as u16 * 256 + lo as u16;
        Ok(())
    }
}

} // verus!