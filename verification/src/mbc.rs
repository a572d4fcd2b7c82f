//! The bank controller of a cartridge: it turns an address of the bus into
//! an offset in the cartridge's ROM or RAM.

use vstd::prelude::*;
use crate::error::CoreError;

verus! {

/// The bank controller.
#[derive(Clone, Copy, Debug, PartialEq, Eq, Structural)]
pub enum Mbc {
    /// No controller: addresses map to themselves.
    NoMbc,
    /// The first controller family, with a 5-bit low bank register and a
    /// 2-bit high bank register.
    Mbc1 { sram_enable: bool, low_bank: usize, high_bank: usize, bank_mode: bool, rom_banks: usize },
}

/// The bank that a write to the low bank register selects: the low five bits
/// of the value, with 1 in place of 0.
pub open spec fn low_bank_of(val: u8) -> usize {
    if val & 0x1F == 0 {
        1
    } else {
        (val & 0x1F) as usize
    }
}

impl Mbc {
    /// The controller for a cartridge type, if the type is supported.
    pub open spec fn new_spec(cartridge_type: u8, rom_banks: usize) -> Option<Mbc> {
        if cartridge_type == 0x00 || cartridge_type == 0x08 || cartridge_type == 0x09 {
            Some(Mbc::NoMbc)
        } else if 0x01 <= cartridge_type <= 0x03 {
            Some(
                Mbc::Mbc1 {
                    sram_enable: false,
                    low_bank: 1,
                    high_bank: 0,
                    bank_mode: false,
                    rom_banks,
                },
            )
        } else {
            None
        }
    }

    /// Whether the controller accepts a write at `addr`.
    pub open spec fn accepts_write(self, addr: u16) -> bool {
        self is NoMbc || addr <= 0x7FFF
    }

    /// The controller after `val` is written at `addr`.
    pub open spec fn write_spec(self, addr: u16, val: u8) -> Mbc {
        match self {
            Mbc::NoMbc => self,
            Mbc::Mbc1 { sram_enable, low_bank, high_bank, bank_mode, rom_banks } => {
                if addr <= 0x1FFF {
                    Mbc::Mbc1 { sram_enable: val & 0x0F == 0x0A, low_bank, high_bank, bank_mode, rom_banks }
                } else if addr <= 0x3FFF {
                    Mbc::Mbc1 { sram_enable, low_bank: low_bank_of(val), high_bank, bank_mode, rom_banks }
                } else if addr <= 0x5FFF {
                    Mbc::Mbc1 { sram_enable, low_bank, high_bank: (val & 0x03) as usize, bank_mode, rom_banks }
                } else if addr <= 0x7FFF {
                    Mbc::Mbc1 { sram_enable, low_bank, high_bank, bank_mode: val & 0x01 != 0, rom_banks }
                } else {
                    self
                }
            },
        }
    }

    /// Whether `addr` lies in a range that the cartridge serves.
    pub open spec fn maps(self, addr: u16) -> bool {
        self is NoMbc || addr <= 0x7FFF || 0xA000 <= addr <= 0xBFFF
    }

    /// The offset in the cartridge that `addr` selects, where `maps(addr)`.
    pub open spec fn offset(self, addr: u16) -> usize {
        match self {
            Mbc::NoMbc => addr as usize,
            Mbc::Mbc1 { low_bank, high_bank, bank_mode, rom_banks, .. } => {
                if addr <= 0x3FFF {
                    if bank_mode {
                        (high_bank << 19) | ((addr & 0x3FFF) as usize)
                    } else {
                        (addr & 0x3FFF) as usize
                    }
                } else if addr <= 0x7FFF {
                    (high_bank << 19) | ((low_bank & rom_banks.wrapping_sub(1)) << 14) | ((addr
                        & 0x3FFF) as usize)
                } else {
                    if bank_mode {
                        (high_bank << 13) | ((addr & 0x1FFF) as usize)
                    } else {
                        (addr & 0x1FFF) as usize
                    }
                }
            },
        }
    }

    /// The result of `get_addr`.
    pub open spec fn get_addr_spec(self, addr: u16) -> Result<usize, CoreError> {
        if self.maps(addr) {
            Ok(self.offset(addr))
        } else {
            Err(CoreError::InvalidRegisterAddress { addr })
        }
    }

    /// The bank registers hold what a write can store in them, and the
    /// number of ROM banks is a power of two of at most 128.
    pub open spec fn wf(self) -> bool {
        match self {
            Mbc::NoMbc => true,
            Mbc::Mbc1 { low_bank, high_bank, rom_banks, .. } => {
                &&& 1 <= low_bank <= 31
                &&& high_bank <= 3
                &&& (rom_banks == 1 || rom_banks == 2 || rom_banks == 4 || rom_banks == 8 || rom_banks
                    == 16 || rom_banks == 32 || rom_banks == 64 || rom_banks == 128)
            },
        }
    }

    /// The controller for a cartridge type: none for types 0x00, 0x08 and
    /// 0x09, the first family for types 0x01 to 0x03, with bank 1 selected.
    /// Other types are not supported.
    pub fn new(cartridge_type: u8, rom_banks: usize) -> (r: Option<Self>)
        ensures
            r == Mbc::new_spec(cartridge_type, rom_banks),
    {
        if cartridge_type == 0x00 || cartridge_type == 0x08 || cartridge_type == 0x09 {
            Some(Mbc::NoMbc)
        } else if 0x01 <= cartridge_type && cartridge_type <= 0x03 {
            Some(
                Mbc::Mbc1 {
                    sram_enable: false,
                    low_bank: 1,
                    high_bank: 0,
                    bank_mode: false,
                    rom_banks,
                },
            )
        } else {
            None
        }
    }

    /// Writes a control register. Without a controller every write is
    /// accepted and ignored. With one, the address selects the register:
    /// RAM enable, low bank, high bank or banking mode; an address above
    /// 0x7FFF is an error and changes nothing.
    pub fn write(&mut self, addr: u16, val: u8) -> (r: Result<(), CoreError>)
        ensures
            *final(self) == old(self).write_spec(addr, val),
            old(self).accepts_write(addr) ==> r == Ok::<(), CoreError>(()),
            !old(self).accepts_write(addr) ==> r == Err::<(), CoreError>(
                CoreError::InvalidRegisterAddress { addr },
            ),
            old(self).wf() ==> final(self).wf(),
    {
        proof {
            lemma_bank_bits(val);
        }
        match *self {
            Mbc::NoMbc => Ok(()),
            Mbc::Mbc1 { sram_enable, low_bank, high_bank, bank_mode, rom_banks } => {
                if addr <= 0x1FFF {
                    *self = Mbc::Mbc1 {
                        sram_enable: val & 0x0F == 0x0A,
                        low_bank,
                        high_bank,
                        bank_mode,
                        rom_banks,
                    };
                    Ok(())
                } else if addr <= 0x3FFF {
                    let bank: usize = if val & 0x1F == 0 {
                        1
                    } else {
                        (val & 0x1F) as usize
                    };
                    *self = Mbc::Mbc1 { sram_enable, low_bank: bank, high_bank, bank_mode, rom_banks };
                    Ok(())
                } else if addr <= 0x5FFF {
                    *self = Mbc::Mbc1 {
                        sram_enable,
                        low_bank,
                        high_bank: (val & 0x03) as usize,
                        bank_mode,
                        rom_banks,
                    };
                    Ok(())
                } else if addr <= 0x7FFF {
                    *self = Mbc::Mbc1 {
                        sram_enable,
                        low_bank,
                        high_bank,
                        bank_mode: val & 0x01 != 0,
                        rom_banks,
                    };
                    Ok(())
                } else {
                    Err(CoreError::InvalidRegisterAddress { addr })
                }
            },
        }
    }

    /// The offset in the cartridge that `addr` selects. Without a controller
    /// it is the address itself. With one, the low 14 bits (13 in the RAM
    /// range) are the offset in a bank and the bank registers choose the
    /// bank; an address outside the ROM and RAM ranges is an error.
    pub fn get_addr(&self, addr: u16) -> (r: Result<usize, CoreError>)
        ensures
            r == self.get_addr_spec(addr),
    {
        match *self {
            Mbc::NoMbc => Ok(addr as usize),
            Mbc::Mbc1 { sram_enable: _, low_bank, high_bank, bank_mode, rom_banks } => {
                if addr <= 0x3FFF {
                    if bank_mode {
                        Ok((high_bank << 19) | ((addr & 0x3FFF) as usize))
                    } else {
                        Ok((addr & 0x3FFF) as usize)
                    }
                } else if addr <= 0x7FFF {
                    Ok(
                        (high_bank << 19) | ((low_bank & rom_banks.wrapping_sub(1)) << 14) | ((addr
                            & 0x3FFF) as usize),
                    )
                } else if 0xA000 <= addr && addr <= 0xBFFF {
                    if bank_mode {
                        Ok((high_bank << 13) | ((addr & 0x1FFF) as usize))
                    } else {
                        Ok((addr & 0x1FFF) as usize)
                    }
                } else {
                    Err(CoreError::InvalidRegisterAddress { addr })
                }
            },
        }
    }
}

/// The bounds of what a write stores in the bank registers.
pub proof fn lemma_bank_bits(val: u8)
    by (bit_vector)
    ensures
        val & 0x1F <= 31,
        val & 0x03 <= 3,
{
}

/// With the bank registers in range, the offset of an address in the
/// switchable ROM range is the selected bank times the bank size plus the
/// offset in the bank, and the selected bank is the 7-bit number made of the
/// two bank registers, reduced modulo the number of banks in its low part.
pub proof fn law_mbc1_switchable_bank(m: Mbc, addr: u16)
    requires
        m.wf(),
        m is Mbc1,
        0x4000 <= addr <= 0x7FFF,
    ensures
        m.offset(addr) == (m->high_bank * 32 + m->low_bank % m->rom_banks) * 0x4000 + (addr - 0x4000),
{
    let h = m->high_bank;
    let l = m->low_bank;
    let n = m->rom_banks;
    assert(n.wrapping_sub(1) == n - 1);
    let k: usize = (n - 1) as usize;
    assert((h <= 3 && l <= 31 && (k == 0 || k == 1 || k == 3 || k == 7 || k == 15 || k == 31 || k == 63
        || k == 127) && 0x4000 <= addr <= 0x7FFF) ==> ((h << 19) | ((l & k) << 14) | ((addr
        & 0x3FFF) as usize)) == (h * 32 + l % ((k + 1) as usize)) * 0x4000 + (addr - 0x4000))
        by (bit_vector);
}

} // verus!
