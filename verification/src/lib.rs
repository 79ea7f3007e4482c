//! Memory bus of a DMG Game Boy: address decoding, cartridge bank
//! controllers, joypad matrix, interrupt latch, OAM DMA and save-state
//! buffers, with machine-checked contracts.
//!
//! [`Memory`] is the bus. Its contracts speak about [`BusState`], the
//! mathematical state behind it: `BusState::read` and `BusState::write`
//! define the decoder, and the executable methods are proved to follow
//! them.

pub mod bus;
pub mod cartridge;
pub mod endian;
pub mod interrupts;
pub mod joypad;
pub mod mask;
pub mod mbc;
pub mod memory;
pub mod ppu;
pub mod savestate;
pub mod timer;
pub mod windows;

pub use bus::AccessFault;
pub use cartridge::CartridgeError;
pub use mbc::{BankingMode, MbcKind, MbcState};
pub use memory::{BusState, Memory};
pub use ppu::{Display, Ppu};
pub use savestate::{ReplayError, RestoreError};
pub use timer::Timer;
