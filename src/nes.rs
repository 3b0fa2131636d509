use vstd::prelude::*;

use crate::computer::Computer;

pub use crate::computer::ppu;

verus! {

/// The console: a 2A03 processor with its bus and background PPU.
pub type NES = Computer;

} // verus!
