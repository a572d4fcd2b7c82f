//! The processor core of an 8-bit handheld console: register file, interrupt
//! controller, address bus and the cycle-stepped execution engine.

pub mod bootrom;
pub mod cartridge;
pub mod cpu;
pub mod error;
pub mod hram;
pub mod mbc;
pub mod peripherals;
pub mod ppu;
pub mod registers;
