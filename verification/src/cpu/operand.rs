//! Operands: the places an instruction reads from and writes to. Each kind
//! of operand takes a fixed number of cycles, one for every access to the
//! bus that it needs.
//!
//! A read or a write is asked for again at every cycle until it answers
//! with `Some`. A call that answers `None` has made exactly one access to
//! the bus; the call that answers `Some` makes none.

use vstd::prelude::*;
use crate::cpu::{Access, Cpu};
use crate::error::CoreError;
use crate::peripherals::{BusView, Peripherals};
use crate::registers::{join, pack, Registers};

verus! {

/// Reading and writing a byte through an operand of kind `T`.
pub trait IO8<T: Copy>: Sized {
    /// The engine and the answer after one call of `read8`.
    spec fn read8_spec(self, bus: BusView, src: T) -> (Self, Option<u8>);

    /// The engine, the bus and the answer after one call of `write8`.
    spec fn write8_spec(self, bus: BusView, dst: T, val: u8) -> (Self, BusView, Result<Option<()>, CoreError>);

    /// The number of calls of `read8` that answer `None` before one answers
    /// `Some`.
    spec fn read8_cost(src: T) -> nat;

    /// The number of calls of `write8` that answer `None` before one
    /// answers `Some`.
    spec fn write8_cost(dst: T) -> nat;

    /// Advances the read by one cycle: the byte, or `None` while another
    /// cycle is needed.
    fn read8(&mut self, bus: &Peripherals, src: T) -> (r: Option<u8>)
        ensures
            (*final(self), r) == old(self).read8_spec(bus@, src),
    ;

    /// Advances the write by one cycle: `Some` once the byte is written, or
    /// `None` while another cycle is needed. An operand that cannot be
    /// written is an error.
    fn write8(&mut self, bus: &mut Peripherals, dst: T, val: u8) -> (r: Result<Option<()>, CoreError>)
        ensures
            (*final(self), final(bus)@, r) == old(self).write8_spec(old(bus)@, dst, val),
    ;
}

/// Reading and writing a word through an operand of kind `T`.
pub trait IO16<T: Copy>: Sized {
    /// The engine and the answer after one call of `read16`.
    spec fn read16_spec(self, bus: BusView, src: T) -> (Self, Option<u16>);

    /// The engine, the bus and the answer after one call of `write16`.
    spec fn write16_spec(self, bus: BusView, dst: T, val: u16) -> (Self, BusView, Result<Option<()>, CoreError>);

    /// The number of calls of `read16` that answer `None` before one
    /// answers `Some`.
    spec fn read16_cost(src: T) -> nat;

    /// The number of calls of `write16` that answer `None` before one
    /// answers `Some`.
    spec fn write16_cost(dst: T) -> nat;

    /// Advances the read by one cycle: the word, or `None` while another
    /// cycle is needed.
    fn read16(&mut self, bus: &Peripherals, src: T) -> (r: Option<u16>)
        ensures
            (*final(self), r) == old(self).read16_spec(bus@, src),
    ;

    /// Advances the write by one cycle: `Some` once the word is written, or
    /// `None` while another cycle is needed. An operand that cannot be
    /// written is an error.
    fn write16(&mut self, bus: &mut Peripherals, dst: T, val: u16) -> (r: Result<Option<()>, CoreError>)
        ensures
            (*final(self), final(bus)@, r) == old(self).write16_spec(old(bus)@, dst, val),
    ;
}

/// An 8-bit register.
#[derive(Clone, Copy, Debug, PartialEq, Eq, Structural)]
pub enum Reg8 {
    A,
    B,
    C,
    D,
    E,
    H,
    L,
}

/// A 16-bit register or register pair.
#[derive(Clone, Copy, Debug, PartialEq, Eq, Structural)]
pub enum Reg16 {
    AF,
    BC,
    DE,
    HL,
    SP,
}

/// The byte at the address that a register pair holds. `CFF` is the byte at
/// 0xFF00 plus `C`; `HLD` and `HLI` use `HL` and then step it down or up.
#[derive(Clone, Copy, Debug, PartialEq, Eq, Structural)]
pub enum Indirect {
    BC,
    DE,
    HL,
    CFF,
    HLD,
    HLI,
}

/// The byte at an address given in the instruction stream: `D` by two
/// bytes, low byte first; `DFF` by one byte, added to 0xFF00.
#[derive(Clone, Copy, Debug, PartialEq, Eq, Structural)]
pub enum Direct8 {
    D,
    DFF,
}

/// The condition of a conditional jump.
#[derive(Clone, Copy, Debug, PartialEq, Eq, Structural)]
pub enum Cond {
    NZ,
    Z,
    NC,
    C,
}

/// The byte at the program counter.
#[derive(Clone, Copy, Debug, PartialEq, Eq, Structural)]
pub struct Imm8;

/// The word at the program counter, low byte first.
#[derive(Clone, Copy, Debug, PartialEq, Eq, Structural)]
pub struct Imm16;

/// The word at an address given in the instruction stream. The engine has
/// no access of this kind.
#[derive(Clone, Copy, Debug, PartialEq, Eq, Structural)]
pub struct Direct16;

/// The value of an 8-bit register.
pub open spec fn reg8_of(regs: Registers, r: Reg8) -> u8 {
    match r {
        Reg8::A => regs.a,
        Reg8::B => regs.b,
        Reg8::C => regs.c,
        Reg8::D => regs.d,
        Reg8::E => regs.e,
        Reg8::H => regs.h,
        Reg8::L => regs.l,
    }
}

/// The register file with an 8-bit register replaced.
pub open spec fn with_reg8(regs: Registers, r: Reg8, val: u8) -> Registers {
    match r {
        Reg8::A => Registers { a: val, ..regs },
        Reg8::B => Registers { b: val, ..regs },
        Reg8::C => Registers { c: val, ..regs },
        Reg8::D => Registers { d: val, ..regs },
        Reg8::E => Registers { e: val, ..regs },
        Reg8::H => Registers { h: val, ..regs },
        Reg8::L => Registers { l: val, ..regs },
    }
}

/// The value of a 16-bit register or register pair.
pub open spec fn reg16_of(regs: Registers, r: Reg16) -> u16 {
    match r {
        Reg16::AF => regs.af(),
        Reg16::BC => regs.bc(),
        Reg16::DE => regs.de(),
        Reg16::HL => regs.hl(),
        Reg16::SP => regs.sp,
    }
}

/// The register file with a 16-bit register or register pair replaced.
pub open spec fn with_reg16(regs: Registers, r: Reg16, val: u16) -> Registers {
    match r {
        Reg16::AF => regs.with_af(val),
        Reg16::BC => regs.with_bc(val),
        Reg16::DE => regs.with_de(val),
        Reg16::HL => regs.with_hl(val),
        Reg16::SP => Registers { sp: val, ..regs },
    }
}

/// The address that an indirect operand names.
pub open spec fn indirect_addr(regs: Registers, ind: Indirect) -> u16 {
    match ind {
        Indirect::BC => regs.bc(),
        Indirect::DE => regs.de(),
        Indirect::HL => regs.hl(),
        Indirect::CFF => (0xFF00 + regs.c) as u16,
        Indirect::HLD => regs.hl(),
        Indirect::HLI => regs.hl(),
    }
}

/// The register file after an indirect operand was used: `HL` stepped down
/// for `HLD` and up for `HLI`.
pub open spec fn indirect_stepped(regs: Registers, ind: Indirect) -> Registers {
    match ind {
        Indirect::HLD => regs.with_hl(regs.hl().wrapping_sub(1)),
        Indirect::HLI => regs.with_hl(regs.hl().wrapping_add(1)),
        _ => regs,
    }
}

/// The address of a direct operand whose first byte is `lo`, where one byte
/// gives it.
pub open spec fn high_page(lo: u8) -> u16 {
    (0xFF00 + lo) as u16
}

impl Cpu {
    /// The engine after the byte at the program counter was taken.
    pub open spec fn advanced(self) -> Cpu {
        Cpu { regs: Registers { pc: self.regs.pc.wrapping_add(1), ..self.regs }, ..self }
    }

    /// The engine with the state of the access in flight replaced.
    pub open spec fn with_access(self, access: Access) -> Cpu {
        Cpu { access, ..self }
    }

    fn indirect_target(&mut self, ind: Indirect) -> (addr: u16)
        ensures
            addr == indirect_addr(old(self).regs, ind),
            *final(self) == (Cpu { regs: indirect_stepped(old(self).regs, ind), ..*old(self) }),
    {
        match ind {
            Indirect::BC => self.regs.bc(),
            Indirect::DE => self.regs.de(),
            Indirect::HL => self.regs.hl(),
            Indirect::CFF => 0xFF00 + (self.regs.c as u16),
            Indirect::HLD => {
                let addr = self.regs.hl();
                self.regs.write_hl(addr.wrapping_sub(1));
                addr
            },
            Indirect::HLI => {
                let addr = self.regs.hl();
                self.regs.write_hl(addr.wrapping_add(1));
                addr
            },
        }
    }

    fn take_immediate(&mut self, bus: &Peripherals) -> (v: u8)
        ensures
            v == old(self).bus_read(bus@, old(self).regs.pc),
            *final(self) == old(self).advanced(),
    {
        let v = bus.read(&self.interrupts, self.regs.pc);
        self.regs.pc = self.regs.pc.wrapping_add(1);
        v
    }
}

impl IO8<Reg8> for Cpu {
    open spec fn read8_spec(self, bus: BusView, src: Reg8) -> (Self, Option<u8>) {
        (self, Some(reg8_of(self.regs, src)))
    }

    open spec fn write8_spec(self, bus: BusView, dst: Reg8, val: u8) -> (
        Self,
        BusView,
        Result<Option<()>, CoreError>,
    ) {
        (Cpu { regs: with_reg8(self.regs, dst, val), ..self }, bus, Ok(Some(())))
    }

    open spec fn read8_cost(src: Reg8) -> nat {
        0
    }

    open spec fn write8_cost(dst: Reg8) -> nat {
        0
    }

    fn read8(&mut self, bus: &Peripherals, src: Reg8) -> (r: Option<u8>) {
        Some(
            match src {
                Reg8::A => self.regs.a,
                Reg8::B => self.regs.b,
                Reg8::C => self.regs.c,
                Reg8::D => self.regs.d,
                Reg8::E => self.regs.e,
                Reg8::H => self.regs.h,
                Reg8::L => self.regs.l,
            },
        )
    }

    fn write8(&mut self, bus: &mut Peripherals, dst: Reg8, val: u8) -> (r: Result<Option<()>, CoreError>) {
        match dst {
            Reg8::A => self.regs.a = val,
            Reg8::B => self.regs.b = val,
            Reg8::C => self.regs.c = val,
            Reg8::D => self.regs.d = val,
            Reg8::E => self.regs.e = val,
            Reg8::H => self.regs.h = val,
            Reg8::L => self.regs.l = val,
        }
        Ok(Some(()))
    }
}

impl IO16<Reg16> for Cpu {
    open spec fn read16_spec(self, bus: BusView, src: Reg16) -> (Self, Option<u16>) {
        (self, Some(reg16_of(self.regs, src)))
    }

    open spec fn write16_spec(self, bus: BusView, dst: Reg16, val: u16) -> (
        Self,
        BusView,
        Result<Option<()>, CoreError>,
    ) {
        (Cpu { regs: with_reg16(self.regs, dst, val), ..self }, bus, Ok(Some(())))
    }

    open spec fn read16_cost(src: Reg16) -> nat {
        0
    }

    open spec fn write16_cost(dst: Reg16) -> nat {
        0
    }

    fn read16(&mut self, bus: &Peripherals, src: Reg16) -> (r: Option<u16>) {
        Some(
            match src {
                Reg16::AF => self.regs.af(),
                Reg16::BC => self.regs.bc(),
                Reg16::DE => self.regs.de(),
                Reg16::HL => self.regs.hl(),
                Reg16::SP => self.regs.sp,
            },
        )
    }

    fn write16(&mut self, bus: &mut Peripherals, dst: Reg16, val: u16) -> (r: Result<Option<()>, CoreError>) {
        match dst {
            Reg16::AF => self.regs.write_af(val),
            Reg16::BC => self.regs.write_bc(val),
            Reg16::DE => self.regs.write_de(val),
            Reg16::HL => self.regs.write_hl(val),
            Reg16::SP => self.regs.sp = val,
        }
        Ok(Some(()))
    }
}

impl IO8<Imm8> for Cpu {
    open spec fn read8_spec(self, bus: BusView, src: Imm8) -> (Self, Option<u8>) {
        match self.access {
            Access::Byte(v) => (self.with_access(Access::Idle), Some(v)),
            _ => (self.advanced().with_access(Access::Byte(self.bus_read(bus, self.regs.pc))), None),
        }
    }

    open spec fn write8_spec(self, bus: BusView, dst: Imm8, val: u8) -> (
        Self,
        BusView,
        Result<Option<()>, CoreError>,
    ) {
        (self, bus, Err(self.unimplemented()))
    }

    open spec fn read8_cost(src: Imm8) -> nat {
        1
    }

    open spec fn write8_cost(dst: Imm8) -> nat {
        0
    }

    fn read8(&mut self, bus: &Peripherals, src: Imm8) -> (r: Option<u8>) {
        match self.access {
            Access::Byte(v) => {
                self.access = Access::Idle;
                Some(v)
            },
            _ => {
                let v = self.take_immediate(bus);
                self.access = Access::Byte(v);
                None
            },
        }
    }

    fn write8(&mut self, bus: &mut Peripherals, dst: Imm8, val: u8) -> (r: Result<Option<()>, CoreError>) {
        Err(self.gap())
    }
}

impl IO16<Imm16> for Cpu {
    open spec fn read16_spec(self, bus: BusView, src: Imm16) -> (Self, Option<u16>) {
        match self.access {
            Access::Low(lo) => (
                self.advanced().with_access(Access::Word(pack(self.bus_read(bus, self.regs.pc), lo))),
                None,
            ),
            Access::Word(w) => (self.with_access(Access::Idle), Some(w)),
            _ => (self.advanced().with_access(Access::Low(self.bus_read(bus, self.regs.pc))), None),
        }
    }

    open spec fn write16_spec(self, bus: BusView, dst: Imm16, val: u16) -> (
        Self,
        BusView,
        Result<Option<()>, CoreError>,
    ) {
        (self, bus, Err(self.unimplemented()))
    }

    open spec fn read16_cost(src: Imm16) -> nat {
        2
    }

    open spec fn write16_cost(dst: Imm16) -> nat {
        0
    }

    fn read16(&mut self, bus: &Peripherals, src: Imm16) -> (r: Option<u16>) {
        match self.access {
            Access::Low(lo) => {
                let hi = self.take_immediate(bus);
                self.access = Access::Word(join(hi, lo));
                None
            },
            Access::Word(w) => {
                self.access = Access::Idle;
                Some(w)
            },
            _ => {
                let lo = self.take_immediate(bus);
                self.access = Access::Low(lo);
                None
            },
        }
    }

    fn write16(&mut self, bus: &mut Peripherals, dst: Imm16, val: u16) -> (r: Result<Option<()>, CoreError>) {
        Err(self.gap())
    }
}

impl IO8<Indirect> for Cpu {
    open spec fn read8_spec(self, bus: BusView, src: Indirect) -> (Self, Option<u8>) {
        match self.access {
            Access::Byte(v) => (self.with_access(Access::Idle), Some(v)),
            _ => (
                Cpu {
                    regs: indirect_stepped(self.regs, src),
                    access: Access::Byte(self.bus_read(bus, indirect_addr(self.regs, src))),
                    ..self
                },
                None,
            ),
        }
    }

    open spec fn write8_spec(self, bus: BusView, dst: Indirect, val: u8) -> (
        Self,
        BusView,
        Result<Option<()>, CoreError>,
    ) {
        match self.access {
            Access::Written => (self.with_access(Access::Idle), bus, Ok(Some(()))),
            _ => {
                let stepped = Cpu { regs: indirect_stepped(self.regs, dst), ..self };
                let (cpu, after) = stepped.bus_write(bus, indirect_addr(self.regs, dst), val);
                (cpu.with_access(Access::Written), after, Ok(None))
            },
        }
    }

    open spec fn read8_cost(src: Indirect) -> nat {
        1
    }

    open spec fn write8_cost(dst: Indirect) -> nat {
        1
    }

    fn read8(&mut self, bus: &Peripherals, src: Indirect) -> (r: Option<u8>) {
        match self.access {
            Access::Byte(v) => {
                self.access = Access::Idle;
                Some(v)
            },
            _ => {
                let addr = self.indirect_target(src);
                let v = bus.read(&self.interrupts, addr);
                self.access = Access::Byte(v);
                None
            },
        }
    }

    fn write8(&mut self, bus: &mut Peripherals, dst: Indirect, val: u8) -> (r: Result<Option<()>, CoreError>) {
        match self.access {
            Access::Written => {
                self.access = Access::Idle;
                Ok(Some(()))
            },
            _ => {
                let addr = self.indirect_target(dst);
                bus.write(&mut self.interrupts, addr, val);
                self.access = Access::Written;
                Ok(None)
            },
        }
    }
}

impl Cpu {
    /// The engine after one cycle spent on finding the address of a direct
    /// operand, where the address is not known yet.
    pub open spec fn direct_addressed(self, bus: BusView, operand: Direct8) -> Cpu {
        let byte = self.bus_read(bus, self.regs.pc);
        match self.access {
            Access::Low(lo) => self.advanced().with_access(Access::Addr(pack(byte, lo))),
            _ => match operand {
                Direct8::D => self.advanced().with_access(Access::Low(byte)),
                Direct8::DFF => self.advanced().with_access(Access::Addr(high_page(byte))),
            },
        }
    }

    fn address_direct(&mut self, bus: &Peripherals, operand: Direct8)
        ensures
            *final(self) == old(self).direct_addressed(bus@, operand),
    {
        let byte = self.take_immediate(bus);
        match self.access {
            Access::Low(lo) => {
                self.access = Access::Addr(join(byte, lo));
            },
            _ => {
                match operand {
                    Direct8::D => {
                        self.access = Access::Low(byte);
                    },
                    Direct8::DFF => {
                        self.access = Access::Addr(0xFF00 + (byte as u16));
                    },
                }
            },
        }
    }
}

impl IO8<Direct8> for Cpu {
    open spec fn read8_spec(self, bus: BusView, src: Direct8) -> (Self, Option<u8>) {
        match self.access {
            Access::Addr(addr) => (self.with_access(Access::Byte(self.bus_read(bus, addr))), None),
            Access::Byte(v) => (self.with_access(Access::Idle), Some(v)),
            _ => (self.direct_addressed(bus, src), None),
        }
    }

    open spec fn write8_spec(self, bus: BusView, dst: Direct8, val: u8) -> (
        Self,
        BusView,
        Result<Option<()>, CoreError>,
    ) {
        match self.access {
            Access::Addr(addr) => {
                let (cpu, after) = self.bus_write(bus, addr, val);
                (cpu.with_access(Access::Written), after, Ok(None))
            },
            Access::Written => (self.with_access(Access::Idle), bus, Ok(Some(()))),
            _ => (self.direct_addressed(bus, dst), bus, Ok(None)),
        }
    }

    open spec fn read8_cost(src: Direct8) -> nat {
        match src {
            Direct8::D => 3,
            Direct8::DFF => 2,
        }
    }

    open spec fn write8_cost(dst: Direct8) -> nat {
        match dst {
            Direct8::D => 3,
            Direct8::DFF => 2,
        }
    }

    fn read8(&mut self, bus: &Peripherals, src: Direct8) -> (r: Option<u8>) {
        match self.access {
            Access::Addr(addr) => {
                let v = bus.read(&self.interrupts, addr);
                self.access = Access::Byte(v);
                None
            },
            Access::Byte(v) => {
                self.access = Access::Idle;
                Some(v)
            },
            _ => {
                self.address_direct(bus, src);
                None
            },
        }
    }

    fn write8(&mut self, bus: &mut Peripherals, dst: Direct8, val: u8) -> (r: Result<Option<()>, CoreError>) {
        match self.access {
            Access::Addr(addr) => {
                bus.write(&mut self.interrupts, addr, val);
                self.access = Access::Written;
                Ok(None)
            },
            Access::Written => {
                self.access = Access::Idle;
                Ok(Some(()))
            },
            _ => {
                self.address_direct(bus, dst);
                Ok(None)
            },
        }
    }
}

/// Whether a read of a byte through `src` that starts in this state
/// answers `None` at each of the next `n` calls, with the access in flight
/// after each, and `Some` at the call after them, with no access in flight
/// any more.
pub open spec fn read8_takes<T: Copy>(cpu: Cpu, bus: BusView, src: T, n: nat) -> bool where Cpu: IO8<T>
    decreases n,
{
    let (next, r) = cpu.read8_spec(bus, src);
    if n == 0 {
        r is Some && next.access == Access::Idle
    } else {
        r is None && next.access != Access::Idle && read8_takes(next, bus, src, (n - 1) as nat)
    }
}

/// Whether a write of a byte through `dst` that starts in this state
/// answers `None` at each of the next `n` calls and `Some` at the call
/// after them, with no access in flight any more.
pub open spec fn write8_takes<T: Copy>(cpu: Cpu, bus: BusView, dst: T, val: u8, n: nat) -> bool where
    Cpu: IO8<T>,

    decreases n,
{
    let (next, after, r) = cpu.write8_spec(bus, dst, val);
    if n == 0 {
        r == Ok::<Option<()>, CoreError>(Some(())) && next.access == Access::Idle
    } else {
        r == Ok::<Option<()>, CoreError>(None) && next.access != Access::Idle && write8_takes(
            next,
            after,
            dst,
            val,
            (n - 1) as nat,
        )
    }
}

/// Whether a read of a word through `src` that starts in this state
/// answers `None` at each of the next `n` calls and `Some` at the call
/// after them, with no access in flight any more.
pub open spec fn read16_takes<T: Copy>(cpu: Cpu, bus: BusView, src: T, n: nat) -> bool where Cpu: IO16<T>
    decreases n,
{
    let (next, r) = cpu.read16_spec(bus, src);
    if n == 0 {
        r is Some && next.access == Access::Idle
    } else {
        r is None && next.access != Access::Idle && read16_takes(next, bus, src, (n - 1) as nat)
    }
}

/// Registers cost no cycle: a read or a write answers at once, and a write
/// is read back.
pub proof fn law_register_costs(cpu: Cpu, bus: BusView, r: Reg8, pair: Reg16, val: u8)
    requires
        cpu.access == Access::Idle,
    ensures
        read8_takes(cpu, bus, r, <Cpu as IO8<Reg8>>::read8_cost(r)),
        write8_takes(cpu, bus, r, val, <Cpu as IO8<Reg8>>::write8_cost(r)),
        read16_takes(cpu, bus, pair, <Cpu as IO16<Reg16>>::read16_cost(pair)),
        cpu.write8_spec(bus, r, val).0.read8_spec(bus, r).1 == Some(val),
{
}

/// An immediate byte costs one cycle and an immediate word two; the
/// program counter ends past the bytes taken, and the word is made of the
/// byte at the program counter as its low byte and the next as its high
/// byte.
pub proof fn law_immediate_costs(cpu: Cpu, bus: BusView)
    requires
        cpu.access == Access::Idle,
    ensures
        read8_takes(cpu, bus, Imm8, <Cpu as IO8<Imm8>>::read8_cost(Imm8)),
        read16_takes(cpu, bus, Imm16, <Cpu as IO16<Imm16>>::read16_cost(Imm16)),
        ({
            let first = cpu.read8_spec(bus, Imm8).0;
            let (second, r) = first.read8_spec(bus, Imm8);
            &&& r == Some(cpu.bus_read(bus, cpu.regs.pc))
            &&& second == cpu.advanced()
        }),
        ({
            let first = cpu.read16_spec(bus, Imm16).0;
            let second = first.read16_spec(bus, Imm16).0;
            let (third, r) = second.read16_spec(bus, Imm16);
            &&& r == Some(
                pack(cpu.bus_read(bus, cpu.regs.pc.wrapping_add(1)), cpu.bus_read(bus, cpu.regs.pc)),
            )
            &&& third == cpu.advanced().advanced()
        }),
{
    reveal_with_fuel(read8_takes, 2);
    reveal_with_fuel(read16_takes, 3);
}

/// An indirect operand costs one cycle to read and one to write, and the
/// pointer of `HLD` and `HLI` moves once.
pub proof fn law_indirect_costs(cpu: Cpu, bus: BusView, operand: Indirect, val: u8)
    requires
        cpu.access == Access::Idle,
    ensures
        read8_takes(cpu, bus, operand, <Cpu as IO8<Indirect>>::read8_cost(operand)),
        write8_takes(cpu, bus, operand, val, <Cpu as IO8<Indirect>>::write8_cost(operand)),
        ({
            let first = cpu.read8_spec(bus, operand).0;
            let (second, r) = first.read8_spec(bus, operand);
            &&& r == Some(cpu.bus_read(bus, indirect_addr(cpu.regs, operand)))
            &&& second == (Cpu { regs: indirect_stepped(cpu.regs, operand), ..cpu })
        }),
{
    reveal_with_fuel(read8_takes, 2);
    reveal_with_fuel(write8_takes, 2);
}

/// A direct operand costs three cycles where two bytes give its address
/// and two where one byte does, to read as to write.
pub proof fn law_direct_costs(cpu: Cpu, bus: BusView, operand: Direct8, val: u8)
    requires
        cpu.access == Access::Idle,
    ensures
        read8_takes(cpu, bus, operand, <Cpu as IO8<Direct8>>::read8_cost(operand)),
        write8_takes(cpu, bus, operand, val, <Cpu as IO8<Direct8>>::write8_cost(operand)),
{
    reveal_with_fuel(read8_takes, 4);
    reveal_with_fuel(write8_takes, 4);
}

} // verus!
