use vstd::prelude::*;

use crate::computer::ppu::{PpuView, PPU};

verus! {

/// Size of the CPU's address space.
pub const CPU_MEMORY_SIZE: usize = 0x10000;

/// Direction of a transfer on the data bus.
#[derive(Copy, Clone, Debug, PartialEq, Eq, Structural)]
pub enum ReadWrite {
    Write,
    Read,
}

/// The CPU's 64 KiB address space, with the PPU's registers mapped at
/// $2000-$2007.
pub struct Bus {
    /// plain memory, one byte per address
    pub bytes: Vec<u8>,
    /// the byte last moved by `execute`
    pub data_bus: u8,
    /// the address that `execute` uses
    pub address_bus: u16,
    /// the picture processing unit behind $2000-$2007
    pub ppu: PPU,
    /// when set, every address is plain memory and the PPU is not reached
    pub cpu_only_mode: bool,
}

/// The state of a `Bus` as plain values.
pub struct BusView {
    pub bytes: Seq<u8>,
    pub data_bus: u8,
    pub address_bus: u16,
    pub ppu: PpuView,
    pub cpu_only_mode: bool,
}

impl View for Bus {
    type V = BusView;

    open spec fn view(&self) -> BusView {
        BusView {
            bytes: self.bytes@,
            data_bus: self.data_bus,
            address_bus: self.address_bus,
            ppu: self.ppu@,
            cpu_only_mode: self.cpu_only_mode,
        }
    }
}

impl BusView {
    pub open spec fn wf(self) -> bool {
        self.bytes.len() == CPU_MEMORY_SIZE && self.ppu.wf()
    }

    /// A read of `address`: the state after it and the byte read.
    /// PPUSTATUS ($2002), OAMDATA ($2004) and PPUDATA ($2007) are read from
    /// the PPU; a PPUDATA read advances the PPU address. Every other address,
    /// and every address in CPU-only mode, reads plain memory.
    #[verifier::opaque]
    pub open spec fn read(self, address: u16) -> (BusView, u8) {
        if self.cpu_only_mode {
            (self, self.bytes[address as int])
        } else if address == 0x2002 {
            (self, self.ppu.status)
        } else if address == 0x2004 {
            (self, self.ppu.oam_data)
        } else if address == 0x2007 {
            (BusView { ppu: self.ppu.advance_vram(), ..self }, self.ppu.memory[self.ppu.vram_index()])
        } else {
            (self, self.bytes[address as int])
        }
    }

    /// The state after a write of `value` to `address`. $2000, $2001, $2003,
    /// $2004, $2005, $2006 and $2007 go to the PPU's registers; every other
    /// address, and every address in CPU-only mode, is plain memory.
    #[verifier::opaque]
    pub open spec fn write(self, address: u16, value: u8) -> BusView {
        let p = self.ppu;
        if self.cpu_only_mode {
            BusView { bytes: self.bytes.update(address as int, value), ..self }
        } else if address == 0x2000 {
            BusView { ppu: PpuView { ctrl: value, ..p }, ..self }
        } else if address == 0x2001 {
            BusView { ppu: PpuView { mask: value, ..p }, ..self }
        } else if address == 0x2003 {
            BusView { ppu: PpuView { oam_addr: value, ..p }, ..self }
        } else if address == 0x2004 {
            BusView { ppu: PpuView { oam_data: value, ..p }, ..self }
        } else if address == 0x2005 {
            BusView { ppu: p.write_scroll(value), ..self }
        } else if address == 0x2006 {
            BusView { ppu: p.write_addr(value), ..self }
        } else if address == 0x2007 {
            BusView { ppu: p.write_data(value), ..self }
        } else {
            BusView { bytes: self.bytes.update(address as int, value), ..self }
        }
    }
}

impl Bus {
    pub open spec fn wf(&self) -> bool {
        self@.wf()
    }

    /// Zeroed memory and bus latches, a powered-up PPU, and the PPU mapped in.
    pub open spec fn powered_up(&self) -> bool {
        &&& self.wf()
        &&& forall|i: int| 0 <= i < CPU_MEMORY_SIZE ==> #[trigger] self.bytes@[i] == 0
        &&& self.data_bus == 0 && self.address_bus == 0
        &&& !self.cpu_only_mode
        &&& self.ppu.powered_up()
    }

    /// A powered-up bus.
    pub fn new() -> (r: Bus)
        ensures
            r.powered_up(),
    {
        Bus {
            bytes: vec![0u8; CPU_MEMORY_SIZE],
            data_bus: 0,
            address_bus: 0,
            ppu: PPU::new(),
            cpu_only_mode: false,
        }
    }

    /// Reads the byte at `address`, with the side effects of the mapped
    /// PPU registers.
    pub fn read(&mut self, address: u16) -> (r: u8)
        requires
            old(self).wf(),
        ensures
            final(self).wf(),
            (final(self)@, r) == old(self)@.read(address),
    {
        reveal(BusView::read);
        if self.cpu_only_mode {
            self.bytes[address as usize]
        } else if address == 0x2002 {
            self.ppu.ppu_status_read()
        } else if address == 0x2004 {
            self.ppu.oam_data_read()
        } else if address == 0x2007 {
            self.ppu.ppu_data_read()
        } else {
            self.bytes[address as usize]
        }
    }

    /// Writes `value` to `address`, routing the mapped PPU registers.
    pub fn write(&mut self, address: u16, value: u8)
        requires
            old(self).wf(),
        ensures
            final(self).wf(),
            final(self)@ == old(self)@.write(address, value),
    {
        reveal(BusView::write);
        if self.cpu_only_mode {
            self.bytes.set(address as usize, value);
        } else if address == 0x2000 {
            self.ppu.ppu_ctrl_write(value);
        } else if address == 0x2001 {
            self.ppu.ppu_mask_write(value);
        } else if address == 0x2003 {
            self.ppu.oam_addr_write(value);
        } else if address == 0x2004 {
            self.ppu.oam_data_write(value);
        } else if address == 0x2005 {
            self.ppu.ppu_scroll_write(value);
        } else if address == 0x2006 {
            self.ppu.ppu_addr_write(value);
        } else if address == 0x2007 {
            self.ppu.ppu_data_write(value);
        } else {
            self.bytes.set(address as usize, value);
        }
    }

    /// Moves one byte between `data_bus` and the address on `address_bus`:
    /// a read fills `data_bus`, a write stores it.
    pub fn execute(&mut self, readwrite: ReadWrite)
        requires
            old(self).wf(),
        ensures
            final(self).wf(),
            readwrite == ReadWrite::Read ==> ({
                let (after, value) = old(self)@.read(old(self).address_bus);
                final(self)@ == BusView { data_bus: value, ..after }
            }),
            readwrite == ReadWrite::Write ==> final(self)@ == old(self)@.write(
                old(self).address_bus,
                old(self).data_bus,
            ),
    {
        match readwrite {
            ReadWrite::Read => {
                let address = self.address_bus;
                self.data_bus = self.read(address);
            },
            ReadWrite::Write => {
                let address = self.address_bus;
                let data = self.data_bus;
                self.write(address, data);
            },
        }
    }
}

impl Default for Bus {
    fn default() -> (r: Bus)
        ensures
            r.powered_up(),
    {
        Bus::new()
    }
}

} // verus!
