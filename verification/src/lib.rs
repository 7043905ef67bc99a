//! An emulator core for the Ricoh 2A03, the 6502 variant in the NES, with its instruction
//! semantics stated and proved.

pub mod c6502;
pub mod common;
pub mod execute;
pub mod instruction;
pub mod laws;
pub mod mapper;
pub mod state;
pub mod step;
pub mod semantics;
