//! The address bus: it routes each access of the engine to the component
//! that serves the address.

use vstd::prelude::*;
use crate::bootrom::{Bootrom, BootromView, ADDR_BOOT_OFF};
use crate::cartridge::{Cartridge, CartridgeView};
use crate::cpu::interrupts::{Interrupts, ADDR_ENABLED, ADDR_PENDING};
use crate::error::CoreError;
use crate::hram::{hram_offset, HRam, HRAM_SIZE};
use crate::ppu::{Ppu, PpuView};

verus! {

/// The value that an unmapped address reads as.
pub const OPEN_BUS: u8 = 0xFF;

/// The component that serves an address.
#[derive(Clone, Copy, Debug, PartialEq, Eq, Structural)]
pub enum Region {
    /// 0x0000 to 0x00FF: the boot overlay while it is active, else the
    /// cartridge. The overlay is read-only.
    Boot,
    /// 0x0100 to 0x7FFF and 0xA000 to 0xBFFF.
    Cartridge,
    /// 0x8000 to 0x9FFF, 0xFE00 to 0xFE9F and 0xFF40 to 0xFF4B.
    Video,
    /// 0xFF80 to 0xFFFE.
    HighRam,
    /// 0xFF0F and 0xFFFF.
    Interrupt,
    /// 0xFF50.
    BootSwitch,
    /// Every other address.
    Unmapped,
}

/// The partition of the address space.
pub open spec fn region_of(addr: u16) -> Region {
    if addr <= 0x00FF {
        Region::Boot
    } else if addr <= 0x7FFF {
        Region::Cartridge
    } else if addr <= 0x9FFF {
        Region::Video
    } else if 0xA000 <= addr <= 0xBFFF {
        Region::Cartridge
    } else if 0xFE00 <= addr <= 0xFE9F {
        Region::Video
    } else if addr == ADDR_PENDING || addr == ADDR_ENABLED {
        Region::Interrupt
    } else if 0xFF40 <= addr <= 0xFF4B {
        Region::Video
    } else if addr == ADDR_BOOT_OFF {
        Region::BootSwitch
    } else if 0xFF80 <= addr <= 0xFFFE {
        Region::HighRam
    } else {
        Region::Unmapped
    }
}

/// The byte that a component answered, and 0xFF where it refused.
pub open spec fn or_open_bus(r: Result<u8, CoreError>) -> u8 {
    match r {
        Ok(v) => v,
        Err(_) => OPEN_BUS,
    }
}

/// What the components on the bus hold.
pub struct BusView {
    pub cartridge: CartridgeView,
    pub bootrom: BootromView,
    pub hram: Seq<u8>,
    pub ppu: PpuView,
}

impl BusView {
    /// The memories of fixed size have their sizes.
    pub open spec fn wf(self) -> bool {
        &&& self.hram.len() == HRAM_SIZE
        &&& self.ppu.wf()
    }

    /// What the component that serves `addr` answers to a read.
    pub open spec fn routed_read(self, interrupts: Interrupts, addr: u16) -> Result<u8, CoreError> {
        match region_of(addr) {
            Region::Boot => if self.bootrom.active {
                Ok(self.bootrom.read(addr))
            } else {
                self.cartridge.read(addr)
            },
            Region::Cartridge => self.cartridge.read(addr),
            Region::Video => self.ppu.read(addr),
            Region::HighRam => Ok(self.hram[hram_offset(addr)]),
            Region::Interrupt => interrupts.read_spec(addr),
            Region::BootSwitch => Ok(OPEN_BUS),
            Region::Unmapped => Ok(OPEN_BUS),
        }
    }

    /// The byte read at `addr`.
    pub open spec fn read(self, interrupts: Interrupts, addr: u16) -> u8 {
        or_open_bus(self.routed_read(interrupts, addr))
    }

    /// The components after `val` is written at `addr`.
    pub open spec fn write(self, addr: u16, val: u8) -> BusView {
        match region_of(addr) {
            Region::Boot => if self.bootrom.active {
                self
            } else {
                BusView { cartridge: self.cartridge.write(addr, val), ..self }
            },
            Region::Cartridge => BusView { cartridge: self.cartridge.write(addr, val), ..self },
            Region::Video => BusView { ppu: self.ppu.write(addr, val), ..self },
            Region::HighRam => BusView { hram: self.hram.update(hram_offset(addr), val), ..self },
            Region::Interrupt => self,
            Region::BootSwitch => BusView { bootrom: self.bootrom.write(addr), ..self },
            Region::Unmapped => self,
        }
    }

    /// The interrupt controller after `val` is written at `addr` on the bus.
    pub open spec fn write_interrupts(interrupts: Interrupts, addr: u16, val: u8) -> Interrupts {
        if region_of(addr) == Region::Interrupt {
            interrupts.write_spec(addr, val)
        } else {
            interrupts
        }
    }
}

/// The bus and the components on it.
pub struct Peripherals {
    pub cartridge: Cartridge,
    pub bootrom: Bootrom,
    pub hram: HRam,
    pub ppu: Ppu,
}

impl View for Peripherals {
    type V = BusView;

    open spec fn view(&self) -> BusView {
        BusView { cartridge: self.cartridge@, bootrom: self.bootrom@, hram: self.hram@, ppu: self.ppu@ }
    }
}

impl Peripherals {
    /// A bus with the given boot overlay and cartridge, zeroed RAM and the
    /// video controller at reset.
    pub fn new(bootrom: Bootrom, cartridge: Cartridge) -> (r: Self)
        ensures
            r@ == (BusView {
                cartridge: cartridge@,
                bootrom: bootrom@,
                hram: Seq::new(HRAM_SIZE as nat, |i: int| 0u8),
                ppu: PpuView::reset(),
            }),
            r@.wf(),
    {
        Peripherals { cartridge, bootrom, hram: HRam::new(), ppu: Ppu::new() }
    }

    /// Reads the byte at `addr` from the component that serves it. An
    /// address that no component serves reads as 0xFF.
    pub fn read(&self, interrupts: &Interrupts, addr: u16) -> (v: u8)
        ensures
            v == self@.read(*interrupts, addr),
            self@.wf(),
    {
        proof {
            use_type_invariant(&self.hram);
            use_type_invariant(&self.ppu);
            self.hram.lemma_inv();
            self.ppu.lemma_inv();
        }
        let answer: Result<u8, CoreError> = if addr <= 0x00FF {
            if self.bootrom.is_active() {
                Ok(self.bootrom.read(addr))
            } else {
                self.cartridge.read(addr)
            }
        } else if addr <= 0x7FFF {
            self.cartridge.read(addr)
        } else if addr <= 0x9FFF {
            self.ppu.read(addr)
        } else if 0xA000 <= addr && addr <= 0xBFFF {
            self.cartridge.read(addr)
        } else if 0xFE00 <= addr && addr <= 0xFE9F {
            self.ppu.read(addr)
        } else if addr == ADDR_PENDING || addr == ADDR_ENABLED {
            interrupts.read(addr)
        } else if 0xFF40 <= addr && addr <= 0xFF4B {
            self.ppu.read(addr)
        } else if 0xFF80 <= addr && addr <= 0xFFFE {
            Ok(self.hram.read(addr))
        } else {
            Ok(OPEN_BUS)
        };
        match answer {
            Ok(v) => v,
            Err(_) => OPEN_BUS,
        }
    }

    /// Writes `val` at `addr` to the component that serves it. A write to
    /// an address that no component serves is dropped, as is a write to the
    /// boot overlay while it is active.
    pub fn write(&mut self, interrupts: &mut Interrupts, addr: u16, val: u8)
        ensures
            final(self)@ == old(self)@.write(addr, val),
            *final(interrupts) == BusView::write_interrupts(*old(interrupts), addr, val),
            final(self)@.wf(),
    {
        proof {
            use_type_invariant(&self.hram);
            use_type_invariant(&self.ppu);
            self.hram.lemma_inv();
            self.ppu.lemma_inv();
        }
        if addr <= 0x00FF {
            if !self.bootrom.is_active() {
                let _ = self.cartridge.write(addr, val);
            }
        } else if addr <= 0x7FFF {
            let _ = self.cartridge.write(addr, val);
        } else if addr <= 0x9FFF {
            let _ = self.ppu.write(addr, val);
        } else if 0xA000 <= addr && addr <= 0xBFFF {
            let _ = self.cartridge.write(addr, val);
        } else if 0xFE00 <= addr && addr <= 0xFE9F {
            let _ = self.ppu.write(addr, val);
        } else if addr == ADDR_PENDING || addr == ADDR_ENABLED {
            let _ = interrupts.write(addr, val);
        } else if 0xFF40 <= addr && addr <= 0xFF4B {
            let _ = self.ppu.write(addr, val);
        } else if addr == ADDR_BOOT_OFF {
            let _ = self.bootrom.write(addr, val);
        } else if 0xFF80 <= addr && addr <= 0xFFFE {
            self.hram.write(addr, val);
        }
        proof {
            use_type_invariant(&self.hram);
            use_type_invariant(&self.ppu);
            self.hram.lemma_inv();
            self.ppu.lemma_inv();
        }
    }
}

/// No component refuses an access that the bus routes to it: every read is
/// answered by the component that serves the address.
pub proof fn law_routing_never_fails(bus: BusView, interrupts: Interrupts, addr: u16)
    ensures
        bus.routed_read(interrupts, addr) is Ok,
        region_of(addr) == Region::Unmapped ==> bus.read(interrupts, addr) == OPEN_BUS,
        region_of(addr) == Region::Unmapped ==> bus.write(addr, 0) == bus,
{
}

/// Once the boot overlay is off, no write on the bus switches it on again,
/// and a write of any value at 0xFF50 switches it off.
pub proof fn law_boot_overlay_stays_off(bus: BusView, addr: u16, val: u8)
    ensures
        !bus.bootrom.active ==> !bus.write(addr, val).bootrom.active,
        !bus.write(ADDR_BOOT_OFF, val).bootrom.active,
{
}

/// A byte written to the fixed RAM is read back at the same address, and a
/// write there changes neither another byte of it nor the interrupt
/// controller.
pub proof fn law_high_ram_round_trip(bus: BusView, interrupts: Interrupts, addr: u16, val: u8, other: u16)
    requires
        bus.wf(),
        region_of(addr) == Region::HighRam,
    ensures
        bus.write(addr, val).read(interrupts, addr) == val,
        region_of(other) == Region::HighRam && other != addr ==> bus.write(addr, val).read(interrupts, other)
            == bus.read(interrupts, other),
        BusView::write_interrupts(interrupts, addr, val) == interrupts,
        bus.write(addr, val).wf(),
{
}

} // verus!
