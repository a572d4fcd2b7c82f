//! The cartridge: ROM, optional RAM and the bank controller between them and
//! the bus.

use vstd::prelude::*;
use crate::error::CoreError;
use crate::mbc::Mbc;

verus! {

/// Offset of the cartridge type in the header.
pub const HEADER_TYPE: usize = 0x147;

/// Offset of the ROM size code in the header.
pub const HEADER_ROM_SIZE: usize = 0x148;

/// Offset of the RAM size code in the header.
pub const HEADER_RAM_SIZE: usize = 0x149;

/// Length of the part of an image that holds the header.
pub const HEADER_END: usize = 0x150;

/// Size of one ROM bank.
pub const ROM_BANK_SIZE: usize = 0x4000;

/// The number of ROM banks that a size code stands for.
pub open spec fn rom_banks_of(code: u8) -> Option<usize> {
    if code == 0 {
        Some(2)
    } else if code == 1 {
        Some(4)
    } else if code == 2 {
        Some(8)
    } else if code == 3 {
        Some(16)
    } else if code == 4 {
        Some(32)
    } else if code == 5 {
        Some(64)
    } else if code == 6 {
        Some(128)
    } else {
        None
    }
}

/// The number of bytes of RAM that a size code stands for.
pub open spec fn ram_size_of(code: u8) -> Option<usize> {
    if code == 0 {
        Some(0)
    } else if code == 1 {
        Some(0x800)
    } else if code == 2 {
        Some(0x2000)
    } else if code == 3 {
        Some(0x8000)
    } else if code == 4 {
        Some(0x2_0000)
    } else if code == 5 {
        Some(0x1_0000)
    } else {
        None
    }
}

/// The byte of `mem` at `offset` reduced modulo the length of `mem`, 0xFF
/// where `mem` is empty.
pub open spec fn byte_at(mem: Seq<u8>, offset: usize) -> u8 {
    if mem.len() == 0 {
        0xFF
    } else {
        mem[offset as int % mem.len() as int]
    }
}

/// `mem` with the byte at `offset` reduced modulo its length replaced,
/// unchanged where `mem` is empty.
pub open spec fn with_byte_at(mem: Seq<u8>, offset: usize, val: u8) -> Seq<u8> {
    if mem.len() == 0 {
        mem
    } else {
        mem.update(offset as int % mem.len() as int, val)
    }
}

/// What a cartridge holds.
pub struct CartridgeView {
    pub rom: Seq<u8>,
    pub sram: Seq<u8>,
    pub mbc: Mbc,
}

impl CartridgeView {
    /// Whether `addr` lies in the ROM ranges.
    pub open spec fn in_rom(addr: u16) -> bool {
        addr <= 0x7FFF
    }

    /// Whether `addr` lies in the RAM range.
    pub open spec fn in_ram(addr: u16) -> bool {
        0xA000 <= addr <= 0xBFFF
    }

    /// Whether the RAM answers: always without a controller, else when the
    /// controller has it enabled.
    pub open spec fn ram_enabled(self) -> bool {
        match self.mbc {
            Mbc::NoMbc => true,
            Mbc::Mbc1 { sram_enable, .. } => sram_enable,
        }
    }

    /// The result of a read at `addr`.
    pub open spec fn read(self, addr: u16) -> Result<u8, CoreError> {
        if Self::in_rom(addr) {
            Ok(byte_at(self.rom, self.mbc.offset(addr)))
        } else if Self::in_ram(addr) {
            if self.ram_enabled() {
                Ok(byte_at(self.sram, self.mbc.offset(addr)))
            } else {
                Ok(0xFF)
            }
        } else {
            Err(CoreError::InvalidRegisterAddress { addr })
        }
    }

    /// The cartridge after `val` is written at `addr`.
    pub open spec fn write(self, addr: u16, val: u8) -> CartridgeView {
        if Self::in_rom(addr) {
            CartridgeView { mbc: self.mbc.write_spec(addr, val), ..self }
        } else if Self::in_ram(addr) && self.ram_enabled() {
            CartridgeView { sram: with_byte_at(self.sram, self.mbc.offset(addr), val), ..self }
        } else {
            self
        }
    }

    /// The cartridge that an image describes, if its header is complete and
    /// consistent: the type is supported, the size codes are known and the
    /// image is as long as its ROM size code says.
    pub open spec fn parse(image: Seq<u8>) -> Option<CartridgeView> {
        if image.len() < HEADER_END {
            None
        } else {
            match (
                rom_banks_of(image[HEADER_ROM_SIZE as int]),
                ram_size_of(image[HEADER_RAM_SIZE as int]),
            ) {
                (Some(banks), Some(ram)) => match Mbc::new_spec(image[HEADER_TYPE as int], banks) {
                    Some(mbc) => if image.len() == banks * ROM_BANK_SIZE {
                        Some(CartridgeView { rom: image, sram: Seq::new(ram as nat, |i: int| 0u8), mbc })
                    } else {
                        None
                    },
                    None => None,
                },
                _ => None,
            }
        }
    }
}

/// The cartridge.
pub struct Cartridge {
    rom: Vec<u8>,
    sram: Vec<u8>,
    mbc: Mbc,
}

impl View for Cartridge {
    type V = CartridgeView;

    closed spec fn view(&self) -> CartridgeView {
        CartridgeView { rom: self.rom@, sram: self.sram@, mbc: self.mbc }
    }
}

/// The number of ROM banks that a size code stands for.
pub fn rom_banks(code: u8) -> (r: Option<usize>)
    ensures
        r == rom_banks_of(code),
{
    if code == 0 {
        Some(2)
    } else if code == 1 {
        Some(4)
    } else if code == 2 {
        Some(8)
    } else if code == 3 {
        Some(16)
    } else if code == 4 {
        Some(32)
    } else if code == 5 {
        Some(64)
    } else if code == 6 {
        Some(128)
    } else {
        None
    }
}

/// The number of bytes of RAM that a size code stands for.
pub fn ram_size(code: u8) -> (r: Option<usize>)
    ensures
        r == ram_size_of(code),
{
    if code == 0 {
        Some(0)
    } else if code == 1 {
        Some(0x800)
    } else if code == 2 {
        Some(0x2000)
    } else if code == 3 {
        Some(0x8000)
    } else if code == 4 {
        Some(0x2_0000)
    } else if code == 5 {
        Some(0x1_0000)
    } else {
        None
    }
}

impl Cartridge {
    /// The cartridge that an image describes, with its RAM zeroed. `None`
    /// where the header is cut short, names a type or a size code that is
    /// not supported, or disagrees with the length of the image.
    pub fn new(image: Vec<u8>) -> (r: Option<Self>)
        ensures
            match CartridgeView::parse(image@) {
                Some(v) => r.is_some() && r.unwrap()@ == v,
                None => r.is_none(),
            },
    {
        if image.len() < HEADER_END {
            return None;
        }
        let banks = match rom_banks(image[HEADER_ROM_SIZE]) {
            Some(b) => b,
            None => {
                return None;
            },
        };
        let ram = match ram_size(image[HEADER_RAM_SIZE]) {
            Some(s) => s,
            None => {
                return None;
            },
        };
        let mbc = match Mbc::new(image[HEADER_TYPE], banks) {
            Some(m) => m,
            None => {
                return None;
            },
        };
        if image.len() != banks * ROM_BANK_SIZE {
            return None;
        }
        let sram: Vec<u8> = vec![0u8; ram];
        assert(sram@ =~= Seq::new(ram as nat, |i: int| 0u8));
        Some(Cartridge { rom: image, sram, mbc })
    }

    /// Reads a byte. In the ROM ranges the controller picks the byte of the
    /// ROM; in the RAM range it picks the byte of the RAM, and 0xFF is read
    /// while the RAM is disabled. Any other address is an error.
    pub fn read(&self, addr: u16) -> (r: Result<u8, CoreError>)
        ensures
            r == self@.read(addr),
    {
        if addr <= 0x7FFF {
            match self.mbc.get_addr(addr) {
                Ok(offset) => Ok(Self::fetch_byte(&self.rom, offset)),
                Err(e) => Err(e),
            }
        } else if 0xA000 <= addr && addr <= 0xBFFF {
            if self.ram_enabled() {
                match self.mbc.get_addr(addr) {
                    Ok(offset) => Ok(Self::fetch_byte(&self.sram, offset)),
                    Err(e) => Err(e),
                }
            } else {
                Ok(0xFF)
            }
        } else {
            Err(CoreError::InvalidRegisterAddress { addr })
        }
    }

    /// Writes a byte. In the ROM ranges the write goes to the controller's
    /// registers; in the RAM range it goes to the RAM, and is dropped while
    /// the RAM is disabled. Any other address is an error and changes
    /// nothing.
    pub fn write(&mut self, addr: u16, val: u8) -> (r: Result<(), CoreError>)
        ensures
            final(self)@ == old(self)@.write(addr, val),
            CartridgeView::in_rom(addr) || CartridgeView::in_ram(addr) ==> r == Ok::<(), CoreError>(()),
            !(CartridgeView::in_rom(addr) || CartridgeView::in_ram(addr)) ==> r == Err::<
                (),
                CoreError,
            >(CoreError::InvalidRegisterAddress { addr }),
    {
        if addr <= 0x7FFF {
            self.mbc.write(addr, val)
        } else if 0xA000 <= addr && addr <= 0xBFFF {
            if self.ram_enabled() && self.sram.len() > 0 {
                match self.mbc.get_addr(addr) {
                    Ok(offset) => {
                        let len = self.sram.len();
                        self.sram[offset % len] = val;
                    },
                    Err(_) => {},
                }
            }
            Ok(())
        } else {
            Err(CoreError::InvalidRegisterAddress { addr })
        }
    }

    fn ram_enabled(&self) -> (b: bool)
        ensures
            b == self@.ram_enabled(),
    {
        match self.mbc {
            Mbc::NoMbc => true,
            Mbc::Mbc1 { sram_enable, .. } => sram_enable,
        }
    }

    fn fetch_byte(mem: &Vec<u8>, offset: usize) -> (v: u8)
        ensures
            v == byte_at(mem@, offset),
    {
        if mem.len() == 0 {
            0xFF
        } else {
            mem[offset % mem.len()]
        }
    }
}

/// A byte written to the cartridge's RAM while it answers is read back at
/// the same address; a write to the RAM while it does not answer, or to a
/// cartridge without RAM, changes nothing; and no write changes the ROM.
pub proof fn law_cartridge_ram_round_trip(c: CartridgeView, addr: u16, val: u8)
    requires
        CartridgeView::in_ram(addr),
    ensures
        c.ram_enabled() && c.sram.len() > 0 ==> c.write(addr, val).read(addr) == Ok::<u8, CoreError>(val),
        !c.ram_enabled() || c.sram.len() == 0 ==> c.write(addr, val) == c,
        c.write(addr, val).rom == c.rom,
        c.write(addr, val).sram.len() == c.sram.len(),
{
}

/// A write in the ROM ranges reaches only the bank controller.
pub proof fn law_cartridge_rom_is_read_only(c: CartridgeView, addr: u16, val: u8)
    requires
        CartridgeView::in_rom(addr),
    ensures
        c.write(addr, val).rom == c.rom,
        c.write(addr, val).sram == c.sram,
        c.mbc is NoMbc ==> c.write(addr, val) == c,
{
}

} // verus!
