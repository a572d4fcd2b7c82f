//! The interrupt controller: the enable latch and the pending and enabled
//! masks of the five interrupt sources.

use vstd::prelude::*;
use crate::error::CoreError;

verus! {

/// Video refresh, the source of highest priority.
pub const VBLANK: u8 = 0x01;

/// Video status.
pub const STAT: u8 = 0x02;

/// Timer overflow.
pub const TIMER: u8 = 0x04;

/// Serial transfer.
pub const SERIAL: u8 = 0x08;

/// Input edge, the source of lowest priority.
pub const JOYPAD: u8 = 0x10;

/// Address of the pending mask.
pub const ADDR_PENDING: u16 = 0xFF0F;

/// Address of the enabled mask.
pub const ADDR_ENABLED: u16 = 0xFFFF;

/// The sources that are both pending and enabled.
pub open spec fn requested(pending: u8, enabled: u8) -> u8 {
    pending & enabled & 0x1F
}

/// The source of highest priority in `mask`, as its bit, or 0 where `mask`
/// holds none of the five sources. The lowest bit has the highest priority.
pub open spec fn highest_priority(mask: u8) -> u8 {
    if mask & VBLANK != 0 {
        VBLANK
    } else if mask & STAT != 0 {
        STAT
    } else if mask & TIMER != 0 {
        TIMER
    } else if mask & SERIAL != 0 {
        SERIAL
    } else if mask & JOYPAD != 0 {
        JOYPAD
    } else {
        0
    }
}

/// The address at which the service routine of a source starts.
pub open spec fn vector_of(source: u8) -> u16 {
    if source == VBLANK {
        0x0040
    } else if source == STAT {
        0x0048
    } else if source == TIMER {
        0x0050
    } else if source == SERIAL {
        0x0058
    } else {
        0x0060
    }
}

/// A mask holds one of the five sources exactly when its highest priority is
/// not 0, and the highest priority is then a bit of the mask.
pub proof fn lemma_highest_priority(mask: u8)
    ensures
        (mask & 0x1F != 0) <==> highest_priority(mask) != 0,
        highest_priority(mask) & mask == highest_priority(mask),
        highest_priority(mask & 0x1F) == highest_priority(mask),
{
    assert((mask & 0x1F != 0) <==> (mask & 1 != 0 || mask & 2 != 0 || mask & 4 != 0 || mask & 8 != 0
        || mask & 16 != 0)) by (bit_vector);
    assert(mask & 1 != 0 ==> 1 & mask == 1) by (bit_vector);
    assert(mask & 2 != 0 ==> 2 & mask == 2) by (bit_vector);
    assert(mask & 4 != 0 ==> 4 & mask == 4) by (bit_vector);
    assert(mask & 8 != 0 ==> 8 & mask == 8) by (bit_vector);
    assert(mask & 16 != 0 ==> 16 & mask == 16) by (bit_vector);
    assert(0 & mask == 0) by (bit_vector);
    assert((mask & 0x1F) & 1 == mask & 1 && (mask & 0x1F) & 2 == mask & 2 && (mask & 0x1F) & 4 == mask
        & 4 && (mask & 0x1F) & 8 == mask & 8 && (mask & 0x1F) & 16 == mask & 16) by (bit_vector);
}

/// The interrupt controller.
#[derive(Clone, Copy, Debug, PartialEq, Eq, Structural)]
pub struct Interrupts {
    /// The enable latch.
    pub ime: bool,
    /// The pending mask.
    pub int_flags: u8,
    /// The enabled mask.
    pub int_enables: u8,
}

impl Default for Interrupts {
    fn default() -> (r: Self)
        ensures
            r == Interrupts::reset(),
    {
        Interrupts { ime: false, int_flags: 0, int_enables: 0 }
    }
}

impl Interrupts {
    /// The controller at reset: latch off, nothing pending, nothing enabled.
    pub open spec fn reset() -> Interrupts {
        Interrupts { ime: false, int_flags: 0, int_enables: 0 }
    }

    /// The sources that are both pending and enabled.
    pub open spec fn spec_get_interrupt(&self) -> u8 {
        requested(self.int_flags, self.int_enables)
    }

    /// Whether an interrupt would be taken now.
    pub open spec fn spec_actionable(&self) -> bool {
        self.ime && requested(self.int_flags, self.int_enables) != 0
    }

    /// The value read at `addr`.
    pub open spec fn read_spec(self, addr: u16) -> Result<u8, CoreError> {
        if addr == ADDR_PENDING {
            Ok(self.int_flags)
        } else if addr == ADDR_ENABLED {
            Ok(self.int_enables)
        } else {
            Err(CoreError::InvalidRegisterAddress { addr })
        }
    }

    /// The controller after `val` is written at `addr`.
    pub open spec fn write_spec(self, addr: u16, val: u8) -> Interrupts {
        if addr == ADDR_PENDING {
            Interrupts { int_flags: val, ..self }
        } else if addr == ADDR_ENABLED {
            Interrupts { int_enables: val, ..self }
        } else {
            self
        }
    }

    /// The controller after the pending source of highest priority is
    /// acknowledged: its pending bit is cleared and the latch is off.
    pub open spec fn acknowledged(self) -> Interrupts {
        Interrupts {
            ime: false,
            int_flags: self.int_flags & !highest_priority(self.spec_get_interrupt()),
            ..self
        }
    }

    /// The vector of the pending source of highest priority, if there is one.
    pub open spec fn pending_vector(self) -> Option<u16> {
        if self.spec_get_interrupt() != 0 {
            Some(vector_of(highest_priority(self.spec_get_interrupt())))
        } else {
            None
        }
    }

    /// Marks the sources in `val` as pending.
    pub fn irq(&mut self, val: u8)
        ensures
            *final(self) == (Interrupts { int_flags: old(self).int_flags | val, ..*old(self) }),
    {
        self.int_flags = self.int_flags | val;
    }

    /// The sources that are both pending and enabled, 0 if there is none.
    #[verifier::when_used_as_spec(spec_get_interrupt)]
    pub fn get_interrupt(&self) -> (mask: u8)
        ensures
            mask == requested(self.int_flags, self.int_enables),
    {
        self.int_flags & self.int_enables & 0x1F
    }

    /// Whether an interrupt would be taken now: the latch is on and a source
    /// is both pending and enabled.
    #[verifier::when_used_as_spec(spec_actionable)]
    pub fn actionable(&self) -> (b: bool)
        ensures
            b == (self.ime && requested(self.int_flags, self.int_enables) != 0),
    {
        self.ime && self.get_interrupt() != 0
    }

    /// Reads the pending mask at 0xFF0F or the enabled mask at 0xFFFF. Any
    /// other address is an error.
    pub fn read(&self, addr: u16) -> (r: Result<u8, CoreError>)
        ensures
            r == self.read_spec(addr),
    {
        if addr == ADDR_PENDING {
            Ok(self.int_flags)
        } else if addr == ADDR_ENABLED {
            Ok(self.int_enables)
        } else {
            Err(CoreError::InvalidRegisterAddress { addr })
        }
    }

    /// Writes the pending mask at 0xFF0F or the enabled mask at 0xFFFF. Any
    /// other address is an error and changes nothing.
    pub fn write(&mut self, addr: u16, val: u8) -> (r: Result<(), CoreError>)
        ensures
            *final(self) == old(self).write_spec(addr, val),
            addr == ADDR_PENDING || addr == ADDR_ENABLED ==> r == Ok::<(), CoreError>(()),
            !(addr == ADDR_PENDING || addr == ADDR_ENABLED) ==> r == Err::<(), CoreError>(
                CoreError::InvalidRegisterAddress { addr },
            ),
    {
        if addr == ADDR_PENDING {
            self.int_flags = val;
            Ok(())
        } else if addr == ADDR_ENABLED {
            self.int_enables = val;
            Ok(())
        } else {
            Err(CoreError::InvalidRegisterAddress { addr })
        }
    }

    /// Acknowledges the pending and enabled source of highest priority:
    /// clears its pending bit, turns the latch off and returns its vector.
    /// Where no source is both pending and enabled only the latch is turned
    /// off, and the result is `None`.
    pub fn acknowledge(&mut self) -> (vector: Option<u16>)
        ensures
            *final(self) == old(self).acknowledged(),
            vector == old(self).pending_vector(),
            old(self).get_interrupt() == 0 ==> final(self).int_flags == old(self).int_flags,
    {
        let mask: u8 = self.get_interrupt();
        proof {
            lemma_highest_priority(mask);
            let f = self.int_flags;
            let e = self.int_enables;
            assert(f & !0u8 == f) by (bit_vector);
            assert((f & e & 0x1F) & 0x1F == f & e & 0x1F) by (bit_vector);
            assert(!1u8 == 0xFEu8 && !2u8 == 0xFDu8 && !4u8 == 0xFBu8 && !8u8 == 0xF7u8 && !16u8
                == 0xEFu8) by (bit_vector);
        }
        self.ime = false;
        if mask & VBLANK != 0 {
            self.int_flags = self.int_flags & 0xFE;
            Some(0x0040)
        } else if mask & STAT != 0 {
            self.int_flags = self.int_flags & 0xFD;
            Some(0x0048)
        } else if mask & TIMER != 0 {
            self.int_flags = self.int_flags & 0xFB;
            Some(0x0050)
        } else if mask & SERIAL != 0 {
            self.int_flags = self.int_flags & 0xF7;
            Some(0x0058)
        } else if mask & JOYPAD != 0 {
            self.int_flags = self.int_flags & 0xEF;
            Some(0x0060)
        } else {
            None
        }
    }
}

/// While the latch is off no interrupt is actionable, whatever is pending.
pub proof fn law_no_interrupt_while_disabled(i: Interrupts)
    requires
        !i.ime,
    ensures
        !i.actionable(),
        !i.acknowledged().actionable(),
{
}

/// Acknowledging clears one pending bit, that of the source of highest
/// priority, and no other.
pub proof fn law_acknowledge_clears_one(i: Interrupts)
    requires
        i.get_interrupt() != 0,
    ensures
        i.acknowledged().int_flags & highest_priority(i.get_interrupt()) == 0,
        i.acknowledged().int_flags | highest_priority(i.get_interrupt()) == i.int_flags,
        i.acknowledged().int_enables == i.int_enables,
{
    let m = i.get_interrupt();
    let h = highest_priority(m);
    let f = i.int_flags;
    let e = i.int_enables;
    lemma_highest_priority(m);
    assert(h & m == h && m == f & e & 0x1F ==> (f & !h) & h == 0 && (f & !h) | h == f) by (bit_vector);
}

} // verus!
