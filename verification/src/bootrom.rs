//! The boot overlay: a small program mapped at the bottom of the address
//! space until software switches it off.

use vstd::prelude::*;
use crate::error::CoreError;

verus! {

/// Address of the register that switches the overlay off.
pub const ADDR_BOOT_OFF: u16 = 0xFF50;

/// What a boot overlay holds.
pub struct BootromView {
    pub rom: Seq<u8>,
    pub active: bool,
}

impl BootromView {
    /// The byte at `addr`, 0xFF past the end of the program.
    pub open spec fn read(self, addr: u16) -> u8 {
        if (addr as int) < self.rom.len() {
            self.rom[addr as int]
        } else {
            0xFF
        }
    }

    /// The overlay after a write at `addr`: switched off for good at the
    /// switch register, unchanged elsewhere.
    pub open spec fn write(self, addr: u16) -> BootromView {
        if addr == ADDR_BOOT_OFF {
            BootromView { active: false, ..self }
        } else {
            self
        }
    }
}

/// The boot overlay.
pub struct Bootrom {
    rom: Vec<u8>,
    active: bool,
}

impl View for Bootrom {
    type V = BootromView;

    closed spec fn view(&self) -> BootromView {
        BootromView { rom: self.rom@, active: self.active }
    }
}

impl Bootrom {
    /// An active overlay that holds `rom`.
    pub fn new(rom: Vec<u8>) -> (r: Self)
        ensures
            r@ == (BootromView { rom: rom@, active: true }),
    {
        Bootrom { rom, active: true }
    }

    /// Whether the overlay is still mapped.
    pub fn is_active(&self) -> (b: bool)
        ensures
            b == self@.active,
    {
        self.active
    }

    /// The byte at `addr`, 0xFF past the end of the program.
    pub fn read(&self, addr: u16) -> (v: u8)
        ensures
            v == self@.read(addr),
    {
        if (addr as usize) < self.rom.len() {
            self.rom[addr as usize]
        } else {
            0xFF
        }
    }

    /// A write of any value at 0xFF50 switches the overlay off; nothing
    /// switches it on again. Any other address is an error and changes
    /// nothing.
    pub fn write(&mut self, addr: u16, val: u8) -> (r: Result<(), CoreError>)
        ensures
            final(self)@ == old(self)@.write(addr),
            addr == ADDR_BOOT_OFF ==> r == Ok::<(), CoreError>(()),
            addr != ADDR_BOOT_OFF ==> r == Err::<(), CoreError>(CoreError::InvalidRegisterAddress { addr }),
    {
        if addr == ADDR_BOOT_OFF {
            self.active = false;
            Ok(())
        } else {
            Err(CoreError::InvalidRegisterAddress { addr })
        }
    }
}

/// Once off, the overlay stays off whatever is written.
pub proof fn law_boot_overlay_one_way(b: BootromView, addr: u16)
    ensures
        !b.active ==> !b.write(addr).active,
        !b.write(ADDR_BOOT_OFF).active,
        b.write(addr).rom == b.rom,
{
}

} // verus!
