//! Reading the emulated console RAM of a running emulator process.

pub mod address;
pub mod endian;
pub mod melee;
pub mod memory;
pub mod text;
pub mod process;
pub mod region;
