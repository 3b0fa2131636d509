//! A cycle-costed emulator of the NES 2A03 processor and a background-only
//! picture processing unit.

pub mod computer;
pub mod nes;
