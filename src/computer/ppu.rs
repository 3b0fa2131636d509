use vstd::prelude::*;

use crate::computer::palette::{system_color, system_palette};

verus! {

/// Size of the PPU's video memory: pattern tables, nametables and palettes.
pub const PPU_MEMORY_SIZE: usize = 0x4000;
/// Size of the object attribute memory.
pub const OAM_SIZE: usize = 0x100;

/// PPUCTRL bit 7: generate an NMI at the start of vertical blank.
pub const CTRL_GENERATE_NMI: u8 = 0x80;
/// PPUCTRL bit 4: background pattern table at $1000 instead of $0000.
pub const CTRL_BACKGROUND_TABLE: u8 = 0x10;
/// PPUCTRL bit 2: PPUDATA accesses advance the address by 32 instead of 1.
pub const CTRL_VRAM_INCREMENT: u8 = 0x04;

pub const FRAME_WIDTH: usize = 256;
pub const FRAME_HEIGHT: usize = 240;
pub const FRAME_BUFFER_SIZE: usize = 61440;

/// The picture processing unit: its memory-mapped registers, video memory
/// and object attribute memory.
pub struct PPU {
    /// VPHB SINN: NMI enable, master/slave, sprite height, background tile
    /// select, sprite tile select, increment mode, nametable select
    pub ppu_ctrl: u8,
    /// BGRs bMmG: color emphasis, sprite and background enables, greyscale
    pub ppu_mask: u8,
    /// VSO- ----: vblank, sprite 0 hit, sprite overflow
    pub ppu_status: u8,
    /// OAM read/write address
    pub oam_addr: u8,
    /// OAM data read/write
    pub oam_data: u8,
    /// fine scroll position
    pub ppu_scroll: u8,
    /// low byte of the video memory address
    pub ppu_addr_low: u8,
    /// high byte of the video memory address
    pub ppu_addr_high: u8,
    /// the write toggle shared by $2005 and $2006; set after an odd number of writes
    pub ppu_addr_received_first_write: bool,
    /// OAM DMA high address
    pub oam_dma: u8,
    /// video memory
    pub memory: Vec<u8>,
    /// object attribute memory
    pub oam: Vec<u8>,
}

/// The state of a `PPU` as plain values.
pub struct PpuView {
    pub ctrl: u8,
    pub mask: u8,
    pub status: u8,
    pub oam_addr: u8,
    pub oam_data: u8,
    pub scroll: u8,
    pub addr_low: u8,
    pub addr_high: u8,
    pub first_write: bool,
    pub oam_dma: u8,
    pub memory: Seq<u8>,
    pub oam: Seq<u8>,
}

impl View for PPU {
    type V = PpuView;

    open spec fn view(&self) -> PpuView {
        PpuView {
            ctrl: self.ppu_ctrl,
            mask: self.ppu_mask,
            status: self.ppu_status,
            oam_addr: self.oam_addr,
            oam_data: self.oam_data,
            scroll: self.ppu_scroll,
            addr_low: self.ppu_addr_low,
            addr_high: self.ppu_addr_high,
            first_write: self.ppu_addr_received_first_write,
            oam_dma: self.oam_dma,
            memory: self.memory@,
            oam: self.oam@,
        }
    }
}

impl PpuView {
    pub open spec fn wf(self) -> bool {
        self.memory.len() == PPU_MEMORY_SIZE && self.oam.len() == OAM_SIZE
    }

    /// The 16-bit video memory address held in the two address bytes.
    pub open spec fn vram_address(self) -> int {
        self.addr_high as int * 256 + self.addr_low as int
    }

    /// The index in video memory that the address designates.
    pub open spec fn vram_index(self) -> int {
        self.vram_address() % (PPU_MEMORY_SIZE as int)
    }

    /// How far a PPUDATA access moves the address.
    pub open spec fn vram_step(self) -> int {
        if self.ctrl & CTRL_VRAM_INCREMENT == CTRL_VRAM_INCREMENT {
            32
        } else {
            1
        }
    }

    /// The state after a PPUDATA access: the address advanced, wrapping at 16 bits.
    pub open spec fn advance_vram(self) -> PpuView {
        let a = (self.vram_address() + self.vram_step()) % 0x10000;
        PpuView { addr_low: (a % 256) as u8, addr_high: (a / 256) as u8, ..self }
    }

    /// The state after a write to PPUADDR: the first write of a pair fills
    /// the high byte, the second the low byte.
    pub open spec fn write_addr(self, value: u8) -> PpuView {
        if self.first_write {
            PpuView { addr_low: value, first_write: false, ..self }
        } else {
            PpuView { addr_high: value, first_write: true, ..self }
        }
    }

    /// The state after a write to PPUSCROLL, which shares the write toggle.
    pub open spec fn write_scroll(self, value: u8) -> PpuView {
        PpuView { scroll: value, first_write: !self.first_write, ..self }
    }

    /// The state after a write to PPUDATA.
    pub open spec fn write_data(self, value: u8) -> PpuView {
        PpuView { memory: self.memory.update(self.vram_index(), value), ..self }.advance_vram()
    }
}


/// The 2-bit subpalette that an attribute byte assigns to one quadrant of its
/// 32x32-pixel area: bits 0-1 top left, 2-3 top right, 4-5 bottom left,
/// 6-7 bottom right.
pub open spec fn subpalette(attribute: u8, right: bool, bottom: bool) -> u8 {
    if bottom && right {
        attribute >> 6
    } else if bottom {
        (attribute >> 4) & 3
    } else if right {
        (attribute >> 2) & 3
    } else {
        attribute & 3
    }
}

/// Whether column `col` (0 is the leftmost) of a pattern row is set.
pub open spec fn pattern_bit(row: u8, col: int) -> bool {
    row & (0x80u8 >> (col as u8)) != 0
}

impl PpuView {
    /// Start of the background pattern table that PPUCTRL selects.
    pub open spec fn pattern_base(self) -> int {
        if self.ctrl & CTRL_BACKGROUND_TABLE == CTRL_BACKGROUND_TABLE {
            0x1000
        } else {
            0
        }
    }

    /// The tile number that nametable 0 holds for pixel (x, y).
    pub open spec fn nametable_byte(self, x: int, y: int) -> u8 {
        self.memory[0x2000 + (y / 8) * 32 + x / 8]
    }

    /// The attribute byte of nametable 0 that covers pixel (x, y).
    pub open spec fn attribute_byte(self, x: int, y: int) -> u8 {
        self.memory[0x23C0 + (y / 32) * 8 + x / 32]
    }

    /// The 2-bit color of pixel (x, y): bit 1 from the high pattern plane,
    /// bit 0 from the low one.
    pub open spec fn color_index(self, x: int, y: int) -> int {
        let row = self.pattern_base() + self.nametable_byte(x, y) as int * 16 + y % 8;
        (if pattern_bit(self.memory[row + 8], x % 8) { 2int } else { 0int })
            + (if pattern_bit(self.memory[row], x % 8) { 1int } else { 0int })
    }

    /// The palette entry of pixel (x, y): the universal background color for
    /// color 0, else color `i` of the tile's background subpalette.
    pub open spec fn palette_entry(self, x: int, y: int) -> u8 {
        let i = self.color_index(x, y);
        let sub = subpalette(self.attribute_byte(x, y), (x / 8) % 4 >= 2, (y / 8) % 4 >= 2);
        if i == 0 {
            self.memory[0x3F00]
        } else {
            self.memory[0x3F01 + sub as int * 4 + i - 1]
        }
    }

    /// The RGB color of pixel (x, y) of the background frame; a palette
    /// entry selects among the 64 system colors by its six low bits.
    pub open spec fn frame_pixel(self, x: int, y: int) -> (u8, u8, u8) {
        system_palette(self.palette_entry(x, y) & 0x3F)
    }
}

impl PPU {
    pub open spec fn wf(&self) -> bool {
        self@.wf()
    }

    /// Every register and memory cell zero but PPUSTATUS, which reads $80
    /// (in vertical blank).
    pub open spec fn powered_up(&self) -> bool {
        &&& self.wf()
        &&& self.ppu_ctrl == 0 && self.ppu_mask == 0 && self.ppu_status == 0x80
        &&& self.oam_addr == 0 && self.oam_data == 0 && self.ppu_scroll == 0
        &&& self.ppu_addr_low == 0 && self.ppu_addr_high == 0
        &&& !self.ppu_addr_received_first_write && self.oam_dma == 0
        &&& forall|i: int| 0 <= i < PPU_MEMORY_SIZE ==> #[trigger] self.memory@[i] == 0
        &&& forall|i: int| 0 <= i < OAM_SIZE ==> #[trigger] self.oam@[i] == 0
    }

    /// A powered-up PPU.
    pub fn new() -> (r: PPU)
        ensures
            r.powered_up(),
    {
        PPU {
            ppu_ctrl: 0,
            ppu_mask: 0,
            ppu_status: 0x80,
            oam_addr: 0,
            oam_data: 0,
            ppu_scroll: 0,
            ppu_addr_low: 0,
            ppu_addr_high: 0,
            ppu_addr_received_first_write: false,
            oam_dma: 0,
            memory: vec![0u8; PPU_MEMORY_SIZE],
            oam: vec![0u8; OAM_SIZE],
        }
    }

    /// The 16-bit video memory address held in PPUADDR.
    fn vram_address(&self) -> (r: u16)
        ensures
            r as int == self@.vram_address(),
    {
        self.ppu_addr_high as u16 * 256 + self.ppu_addr_low as u16
    }

    /// Moves PPUADDR on by 1, or by 32 when PPUCTRL's increment bit is set.
    fn advance_vram(&mut self)
        ensures
            final(self)@ == old(self)@.advance_vram(),
    {
        let step: u16 = if self.ppu_ctrl & CTRL_VRAM_INCREMENT == CTRL_VRAM_INCREMENT {
            32
        } else {
            1
        };
        let a = self.vram_address().wrapping_add(step);
        self.ppu_addr_low = (a % 256) as u8;
        self.ppu_addr_high = (a / 256) as u8;
    }

    /// $2000 write.
    pub fn ppu_ctrl_write(&mut self, input: u8)
        ensures
            final(self)@ == (PpuView { ctrl: input, ..old(self)@ }),
    {
        self.ppu_ctrl = input;
    }

    /// $2001 write.
    pub fn ppu_mask_write(&mut self, input: u8)
        ensures
            final(self)@ == (PpuView { mask: input, ..old(self)@ }),
    {
        self.ppu_mask = input;
    }

    /// $2002 read. The read leaves the write toggle as it is.
    pub fn ppu_status_read(&self) -> (r: u8)
        ensures
            r == self.ppu_status,
    {
        self.ppu_status
    }

    /// $2003 write.
    pub fn oam_addr_write(&mut self, input: u8)
        ensures
            final(self)@ == (PpuView { oam_addr: input, ..old(self)@ }),
    {
        self.oam_addr = input;
    }

    /// $2004 read.
    pub fn oam_data_read(&self) -> (r: u8)
        ensures
            r == self.oam_data,
    {
        self.oam_data
    }

    /// $2004 write.
    pub fn oam_data_write(&mut self, input: u8)
        ensures
            final(self)@ == (PpuView { oam_data: input, ..old(self)@ }),
    {
        self.oam_data = input;
    }

    /// $2005 write: stores the scroll byte and flips the shared write toggle.
    pub fn ppu_scroll_write(&mut self, input: u8)
        ensures
            final(self)@ == old(self)@.write_scroll(input),
    {
        self.ppu_scroll = input;
        self.ppu_addr_received_first_write = !self.ppu_addr_received_first_write;
    }

    /// $2006 write: fills the high byte of PPUADDR on the first write of a
    /// pair and the low byte on the second, flipping the shared toggle.
    pub fn ppu_addr_write(&mut self, input: u8)
        ensures
            final(self)@ == old(self)@.write_addr(input),
    {
        if self.ppu_addr_received_first_write {
            self.ppu_addr_low = input;
        } else {
            self.ppu_addr_high = input;
        }
        self.ppu_addr_received_first_write = !self.ppu_addr_received_first_write;
    }

    /// $2007 read: the byte at PPUADDR (its 14 low bits), then PPUADDR advances.
    pub fn ppu_data_read(&mut self) -> (r: u8)
        requires
            old(self).wf(),
        ensures
            final(self).wf(),
            r == old(self)@.memory[old(self)@.vram_index()],
            final(self)@ == old(self)@.advance_vram(),
    {
        let index = (self.vram_address() % 0x4000) as usize;
        let value = self.memory[index];
        self.advance_vram();
        value
    }

    /// $2007 write: stores at PPUADDR (its 14 low bits), then PPUADDR advances.
    pub fn ppu_data_write(&mut self, input: u8)
        requires
            old(self).wf(),
        ensures
            final(self).wf(),
            final(self)@ == old(self)@.write_data(input),
    {
        let index = (self.vram_address() % 0x4000) as usize;
        self.memory.set(index, input);
        self.advance_vram();
    }

    /// OAM DMA register write.
    pub fn oam_dma_write(&mut self, input: u8)
        ensures
            final(self)@ == (PpuView { oam_dma: input, ..old(self)@ }),
    {
        self.oam_dma = input;
    }
}

impl PPU {
    fn fetch_nametable_byte(&self, x_pixel: usize, y_pixel: usize) -> (r: u8)
        requires
            self.wf(),
            x_pixel < FRAME_WIDTH,
            y_pixel < FRAME_HEIGHT,
        ensures
            r == self@.nametable_byte(x_pixel as int, y_pixel as int),
    {
        self.memory[0x2000 + (y_pixel / 8) * 32 + x_pixel / 8]
    }

    fn fetch_attribute_byte(&self, x_pixel: usize, y_pixel: usize) -> (r: u8)
        requires
            self.wf(),
            x_pixel < FRAME_WIDTH,
            y_pixel < FRAME_HEIGHT,
        ensures
            r == self@.attribute_byte(x_pixel as int, y_pixel as int),
    {
        self.memory[0x23C0 + (y_pixel / 32) * 8 + x_pixel / 32]
    }

    /// The subpalette that `attribute_byte` assigns to the quadrant holding
    /// pixel (x, y), in the two low bits.
    fn fetch_attribute_byte_subpalette_index(
        &self,
        attribute_byte: u8,
        x_pixel: usize,
        y_pixel: usize,
    ) -> (r: u8)
        ensures
            r == subpalette(attribute_byte, (x_pixel / 8) % 4 >= 2, (y_pixel / 8) % 4 >= 2),
            r < 4,
    {
        let right = (x_pixel / 8) % 4 >= 2;
        let bottom = (y_pixel / 8) % 4 >= 2;
        let r = if bottom && right {
            attribute_byte >> 6
        } else if bottom {
            (attribute_byte >> 4) & 3
        } else if right {
            (attribute_byte >> 2) & 3
        } else {
            attribute_byte & 3
        };
        assert(attribute_byte >> 6 < 4 && (attribute_byte >> 4) & 3 < 4) by (bit_vector);
        assert((attribute_byte >> 2) & 3 < 4 && attribute_byte & 3 < 4) by (bit_vector);
        r
    }

    /// The low and high pattern planes of row `y_pixel % 8` of tile `nametable_index`.
    fn fetch_line_from_pattern_table(&self, nametable_index: u8, y_pixel: usize) -> (r: (u8, u8))
        requires
            self.wf(),
        ensures
            ({
                let row = self@.pattern_base() + nametable_index as int * 16 + y_pixel as int % 8;
                r == (self@.memory[row], self@.memory[row + 8])
            }),
    {
        let base: usize = if self.ppu_ctrl & CTRL_BACKGROUND_TABLE == CTRL_BACKGROUND_TABLE {
            0x1000
        } else {
            0
        };
        let row = base + nametable_index as usize * 16 + y_pixel % 8;
        (self.memory[row], self.memory[row + 8])
    }

    /// Draws the eight pixels of row `y_pixel` of the tile that starts at
    /// column `x_pixel` into the frame buffer, leaving every other pixel as it was.
    pub fn render_tile(&self, buffer: &mut Vec<(u8, u8, u8)>, x_pixel: usize, y_pixel: usize)
        requires
            self.wf(),
            old(buffer)@.len() == FRAME_BUFFER_SIZE,
            x_pixel < FRAME_WIDTH,
            x_pixel % 8 == 0,
            y_pixel < FRAME_HEIGHT,
        ensures
            final(buffer)@.len() == FRAME_BUFFER_SIZE,
            forall|c: int|
                0 <= c < 8 ==> #[trigger] final(buffer)@[y_pixel * 256 + x_pixel + c]
                    == self@.frame_pixel(x_pixel + c, y_pixel as int),
            forall|j: int|
                0 <= j < FRAME_BUFFER_SIZE && !(y_pixel * 256 + x_pixel <= j < y_pixel * 256
                    + x_pixel + 8) ==> #[trigger] final(buffer)@[j] == old(buffer)@[j],
    {
        let n = self.fetch_nametable_byte(x_pixel, y_pixel);
        let a = self.fetch_attribute_byte(x_pixel, y_pixel);
        let sub = self.fetch_attribute_byte_subpalette_index(a, x_pixel, y_pixel) as usize;
        proof {
            assert(forall|e: u8| e & 0x3F < 64) by (bit_vector);
        }
        let color_0 = system_color(self.memory[0x3F00] & 0x3F);
        let color_1 = system_color(self.memory[0x3F01 + sub * 4] & 0x3F);
        let color_2 = system_color(self.memory[0x3F02 + sub * 4] & 0x3F);
        let color_3 = system_color(self.memory[0x3F03 + sub * 4] & 0x3F);
        let (low, high) = self.fetch_line_from_pattern_table(n, y_pixel);
        let start = y_pixel * FRAME_WIDTH + x_pixel;
        let mut i: usize = 0;
        while i < 8
            invariant
                i <= 8,
                start == y_pixel * 256 + x_pixel,
                x_pixel % 8 == 0,
                x_pixel < FRAME_WIDTH,
                y_pixel < FRAME_HEIGHT,
                self.wf(),
                buffer@.len() == FRAME_BUFFER_SIZE,
                n == self@.nametable_byte(x_pixel as int, y_pixel as int),
                sub == subpalette(a, (x_pixel / 8) % 4 >= 2, (y_pixel / 8) % 4 >= 2),
                a == self@.attribute_byte(x_pixel as int, y_pixel as int),
                sub < 4,
                color_0 == system_palette(self@.memory[0x3F00] & 0x3F),
                color_1 == system_palette(self@.memory[0x3F01 + sub * 4] & 0x3F),
                color_2 == system_palette(self@.memory[0x3F02 + sub * 4] & 0x3F),
                color_3 == system_palette(self@.memory[0x3F03 + sub * 4] & 0x3F),
                ({
                    let row = self@.pattern_base() + n as int * 16 + y_pixel as int % 8;
                    (low, high) == (self@.memory[row], self@.memory[row + 8])
                }),
                forall|c: int|
                    0 <= c < i ==> #[trigger] buffer@[start + c] == self@.frame_pixel(
                        x_pixel + c,
                        y_pixel as int,
                    ),
                forall|j: int|
                    0 <= j < FRAME_BUFFER_SIZE && !(start <= j < start + i) ==> #[trigger] buffer@[j]
                        == old(buffer)@[j],
            decreases 8 - i,
        {
            let mask: u8 = 0x80u8 >> (i as u8);
            let hi_set = high & mask != 0;
            let lo_set = low & mask != 0;
            let color = if hi_set && lo_set {
                color_3
            } else if hi_set {
                color_2
            } else if lo_set {
                color_1
            } else {
                color_0
            };
            proof {
                let x = x_pixel + i;
                assert(x / 8 == x_pixel / 8);
                assert(x / 32 == x_pixel / 32);
                assert(x % 8 == i);
                assert(self@.nametable_byte(x, y_pixel as int) == n);
                assert(self@.attribute_byte(x, y_pixel as int) == a);
                assert(pattern_bit(high, x % 8) == hi_set);
                assert(pattern_bit(low, x % 8) == lo_set);
            }
            buffer.set(start + i, color);
            i = i + 1;
        }
    }

    /// Draws pixel row `y_pixel` of the background frame, tile by tile.
    pub fn render_line(&self, buffer: &mut Vec<(u8, u8, u8)>, y_pixel: usize)
        requires
            self.wf(),
            old(buffer)@.len() == FRAME_BUFFER_SIZE,
            y_pixel < FRAME_HEIGHT,
        ensures
            final(buffer)@.len() == FRAME_BUFFER_SIZE,
            forall|x: int|
                0 <= x < 256 ==> #[trigger] final(buffer)@[y_pixel * 256 + x]
                    == self@.frame_pixel(x, y_pixel as int),
            forall|j: int|
                0 <= j < FRAME_BUFFER_SIZE && !(y_pixel * 256 <= j < y_pixel * 256 + 256)
                    ==> #[trigger] final(buffer)@[j] == old(buffer)@[j],
    {
        let mut tile: usize = 0;
        while tile < 32
            invariant
                tile <= 32,
                self.wf(),
                y_pixel < FRAME_HEIGHT,
                buffer@.len() == FRAME_BUFFER_SIZE,
                forall|x: int|
                    0 <= x < tile * 8 ==> #[trigger] buffer@[y_pixel * 256 + x]
                        == self@.frame_pixel(x, y_pixel as int),
                forall|j: int|
                    0 <= j < FRAME_BUFFER_SIZE && !(y_pixel * 256 <= j < y_pixel * 256 + tile * 8)
                        ==> #[trigger] buffer@[j] == old(buffer)@[j],
            decreases 32 - tile,
        {
            let x_pixel = tile * 8;
            self.render_tile(buffer, x_pixel, y_pixel);
            proof {
                assert forall|x: int| 0 <= x < (tile + 1) * 8 implies #[trigger] buffer@[y_pixel
                    * 256 + x] == self@.frame_pixel(x, y_pixel as int) by {
                    if x >= x_pixel {
                        let c = x - x_pixel;
                        assert(buffer@[y_pixel * 256 + x_pixel + c] == self@.frame_pixel(
                            x_pixel + c,
                            y_pixel as int,
                        ));
                    }
                }
            }
            tile = tile + 1;
        }
    }

    /// The background frame drawn from nametable 0: 256x240 RGB pixels, row
    /// by row. The PPU is left as it was.
    pub fn render_frame(&self) -> (r: Vec<(u8, u8, u8)>)
        requires
            self.wf(),
        ensures
            r@.len() == FRAME_BUFFER_SIZE,
            forall|x: int, y: int|
                0 <= x < 256 && 0 <= y < 240 ==> #[trigger] r@[y * 256 + x] == self@.frame_pixel(x, y),
    {
        let mut buffer: Vec<(u8, u8, u8)> = vec![(0u8, 0u8, 0u8); FRAME_BUFFER_SIZE];
        let mut y: usize = 0;
        while y < FRAME_HEIGHT
            invariant
                y <= FRAME_HEIGHT,
                self.wf(),
                buffer@.len() == FRAME_BUFFER_SIZE,
                forall|x: int, yy: int|
                    0 <= x < 256 && 0 <= yy < y ==> #[trigger] buffer@[yy * 256 + x]
                        == self@.frame_pixel(x, yy),
            decreases FRAME_HEIGHT - y,
        {
            let ghost before = buffer@;
            self.render_line(&mut buffer, y);
            proof {
                assert forall|x: int, yy: int|
                    0 <= x < 256 && 0 <= yy < y + 1 implies #[trigger] buffer@[yy * 256 + x]
                        == self@.frame_pixel(x, yy) by {
                    if yy < y {
                        assert(before[yy * 256 + x] == self@.frame_pixel(x, yy));
                        assert(!(y * 256 <= yy * 256 + x < y * 256 + 256));
                    }
                }
            }
            y = y + 1;
        }
        buffer
    }
}

impl Default for PPU {
    fn default() -> (r: PPU)
        ensures
            r.powered_up(),
    {
        PPU::new()
    }
}

} // verus!
