//! The execution engine: fetch, decode and the cycle-stepped execution of
//! instructions and of the entry into an interrupt service routine.
//!
//! Every call of [`Cpu::emulate_cycle`] is one machine cycle. An instruction
//! that needs several cycles records how far it has come in the engine's
//! own state and goes on from there at the next call; its last cycle
//! fetches the opcode that follows.

use vstd::prelude::*;
use crate::cpu::interrupts::Interrupts;
use crate::cpu::invariants::{law_cycle_keeps_flags_well_formed, law_gap_is_fatal};
use crate::cpu::operand::{Cond, Direct8, Imm16, Imm8, Indirect, Reg16, Reg8, IO8};
use crate::error::CoreError;
use crate::peripherals::{BusView, Peripherals};
use crate::registers::Registers;

pub mod instructions;
pub mod interrupts;
pub mod invariants;
pub mod operand;
pub mod round_trips;
pub mod semantics;
pub mod timing;

verus! {

/// What was latched at the last fetch.
#[derive(Clone, Copy, Debug, PartialEq, Eq, Structural)]
pub struct Ctx {
    /// The opcode in flight.
    pub opcode: u8,
    /// Whether the opcode belongs to the extended table.
    pub cb: bool,
    /// Whether an interrupt was actionable at the fetch, so that the entry
    /// into its service routine runs in place of the opcode.
    pub int: bool,
}

/// How far the instruction in flight has come.
#[derive(Clone, Copy, Debug, PartialEq, Eq, Structural)]
pub enum Phase {
    /// Nothing is recorded: the instruction reads its source, or has none.
    Start,
    /// A byte waits to be written to the destination.
    Store8(u8),
    /// A word waits to be written, pushed or jumped to.
    Store16(u16),
    /// The work is done but for the cycle that ends the instruction.
    Settle,
}

/// How far the operand access or stack access in flight has come.
#[derive(Clone, Copy, Debug, PartialEq, Eq, Structural)]
pub enum Access {
    /// No access is in flight.
    Idle,
    /// The low byte of a word or of an address has been taken.
    Low(u8),
    /// The address of a direct access is known; the access itself is due.
    Addr(u16),
    /// The byte has been read and is handed out at the next call.
    Byte(u8),
    /// The word has been read and is handed out at the next call.
    Word(u16),
    /// The byte has been written; the write is reported at the next call.
    Written,
    /// The idle cycle that precedes a push has passed.
    Armed,
}

/// The engine.
#[derive(Clone, Copy, Debug, PartialEq, Eq, Structural)]
pub struct Cpu {
    /// Cycles spent on the instruction in flight, modulo 256.
    pub cycle: u8,
    /// The register file.
    pub regs: Registers,
    /// The interrupt controller.
    pub interrupts: Interrupts,
    /// What the last fetch latched.
    pub ctx: Ctx,
    /// The progress of the instruction in flight.
    pub phase: Phase,
    /// The progress of the operand access or stack access in flight.
    pub access: Access,
}

impl Default for Cpu {
    fn default() -> (r: Self)
        ensures
            r == Cpu::reset(),
    {
        Cpu::new()
    }
}

impl Cpu {
    /// The engine at reset: registers zeroed, interrupts off, and a no-op
    /// latched as the instruction in flight.
    pub open spec fn reset() -> Cpu {
        Cpu {
            cycle: 0,
            regs: Registers::zeroed(),
            interrupts: Interrupts::reset(),
            ctx: Ctx { opcode: 0, cb: false, int: false },
            phase: Phase::Start,
            access: Access::Idle,
        }
    }

    /// No instruction is part-way through: the opcode in flight has not
    /// spent a cycle yet.
    pub open spec fn spec_is_idle(&self) -> bool {
        self.phase == Phase::Start && self.access == Access::Idle
    }

    /// The address that the opcode in flight was fetched from.
    pub open spec fn spec_instruction_addr(&self) -> u16 {
        self.regs.pc.wrapping_sub(1)
    }

    /// The error that reports the opcode in flight as a gap.
    pub open spec fn unimplemented(self) -> CoreError {
        CoreError::UnimplementedOpcode { opcode: self.ctx.opcode, cb: self.ctx.cb, pc: self.regs.pc }
    }

    /// The byte that the engine reads at `addr`.
    pub open spec fn bus_read(self, bus: BusView, addr: u16) -> u8 {
        bus.read(self.interrupts, addr)
    }

    /// The engine and the bus after the engine has written `val` at `addr`.
    pub open spec fn bus_write(self, bus: BusView, addr: u16, val: u8) -> (Cpu, BusView) {
        (
            Cpu { interrupts: BusView::write_interrupts(self.interrupts, addr, val), ..self },
            bus.write(addr, val),
        )
    }

    /// The engine after a fetch.
    pub open spec fn fetch_spec(self, bus: BusView) -> Cpu {
        Cpu {
            cycle: 0,
            regs: Registers { pc: self.regs.pc.wrapping_add(1), ..self.regs },
            ctx: Ctx {
                opcode: self.bus_read(bus, self.regs.pc),
                cb: false,
                int: self.interrupts.actionable(),
            },
            phase: Phase::Start,
            access: Access::Idle,
            ..self
        }
    }

    /// The outcome of a cycle that cannot fail and leaves the bus alone.
    pub open spec fn done(cpu: Cpu, bus: BusView) -> (Cpu, BusView, Result<(), CoreError>) {
        (cpu, bus, Ok(()))
    }

    /// The outcome of a cycle that cannot fail.
    pub open spec fn done_with(step: (Cpu, BusView)) -> (Cpu, BusView, Result<(), CoreError>) {
        (step.0, step.1, Ok(()))
    }

    /// One cycle of the entry into an interrupt service routine: the
    /// program counter is pushed; then, in the cycle that ends the entry,
    /// the source of highest priority is acknowledged, the program counter
    /// is set to its vector and the opcode there is fetched. Where no
    /// source is pending and enabled by then, the program counter stays.
    pub open spec fn call_isr_spec(self, bus: BusView) -> (Cpu, BusView) {
        match self.phase {
            Phase::Settle => {
                let acked = Cpu { interrupts: self.interrupts.acknowledged(), ..self };
                let vectored = match self.interrupts.pending_vector() {
                    Some(vector) => acked.with_pc(vector),
                    None => acked,
                };
                (vectored.fetch_spec(bus), bus)
            },
            _ => self.pushing_spec(bus, self.regs.pc),
        }
    }

    /// One cycle of an opcode of the extended table.
    pub open spec fn cb_decode_spec(self, bus: BusView) -> (Cpu, BusView, Result<(), CoreError>) {
        match self.ctx.opcode {
            0x10 => self.rl_spec(bus, Reg8::B),
            0x11 => self.rl_spec(bus, Reg8::C),
            0x6C => Self::done(self.bit_spec(bus, 5, Reg8::H), bus),
            _ => (self, bus, Err(self.unimplemented())),
        }
    }

    /// One cycle of the prefix of the extended table: the opcode that
    /// follows is read, and in the cycle in which it arrives it replaces
    /// the prefix as the opcode in flight and is decoded.
    pub open spec fn cb_prefixed_spec(self, bus: BusView) -> (Cpu, BusView, Result<(), CoreError>) {
        let (cpu, r) = self.read8_spec(bus, Imm8);
        match r {
            Some(v) => (Cpu { ctx: Ctx { opcode: v, cb: true, ..cpu.ctx }, ..cpu }).cb_decode_spec(bus),
            None => (cpu, bus, Ok(())),
        }
    }

    /// One cycle of the opcode in flight.
    pub open spec fn decode_spec(self, bus: BusView) -> (Cpu, BusView, Result<(), CoreError>) {
        if self.ctx.cb {
            self.cb_decode_spec(bus)
        } else {
            match self.ctx.opcode {
                0x00 => Self::done(self.fetch_spec(bus), bus),
                0x06 => self.ld_spec(bus, Reg8::B, Imm8),
                0x0E => self.ld_spec(bus, Reg8::C, Imm8),
                0x1A => self.ld_spec(bus, Reg8::A, Indirect::DE),
                0x22 => self.ld_spec(bus, Indirect::HLI, Reg8::A),
                0x32 => self.ld_spec(bus, Indirect::HLD, Reg8::A),
                0x2E => self.ld_spec(bus, Reg8::L, Imm8),
                0x3E => self.ld_spec(bus, Reg8::A, Imm8),
                0x47 => self.ld_spec(bus, Reg8::B, Reg8::A),
                0x57 => self.ld_spec(bus, Reg8::D, Reg8::A),
                0x79 => self.ld_spec(bus, Reg8::A, Reg8::C),
                0x7A => self.ld_spec(bus, Reg8::A, Reg8::D),
                0x7B => self.ld_spec(bus, Reg8::A, Reg8::E),
                0xE0 => self.ld_spec(bus, Direct8::DFF, Reg8::A),
                0xEA => self.ld_spec(bus, Direct8::D, Reg8::A),
                0x01 => self.ld16_spec(bus, Reg16::BC, Imm16),
                0x11 => self.ld16_spec(bus, Reg16::DE, Imm16),
                0x21 => self.ld16_spec(bus, Reg16::HL, Imm16),
                0x31 => self.ld16_spec(bus, Reg16::SP, Imm16),
                0x13 => self.step16_spec(bus, Reg16::DE, true),
                0x23 => self.step16_spec(bus, Reg16::HL, true),
                0x05 => self.dec_spec(bus, Reg8::B),
                0x15 => self.dec_spec(bus, Reg8::D),
                0x0D => self.dec_spec(bus, Reg8::C),
                0x3D => self.dec_spec(bus, Reg8::A),
                0x18 => Self::done(self.jump_relative_spec(bus, None), bus),
                0x20 => Self::done(self.jump_relative_spec(bus, Some(Cond::NZ)), bus),
                0x28 => Self::done(self.jump_relative_spec(bus, Some(Cond::Z)), bus),
                0xC3 => Self::done(self.jp_spec(bus), bus),
                0xC9 => Self::done(self.ret_spec(bus), bus),
                0xCB => self.cb_prefixed_spec(bus),
                0xCD => Self::done_with(self.call_spec(bus)),
                0xC1 => Self::done(self.pop_spec(bus, Reg16::BC), bus),
                0xF1 => Self::done(self.pop_spec(bus, Reg16::AF), bus),
                0xC5 => Self::done_with(self.push_spec(bus, Reg16::BC)),
                0xE5 => Self::done_with(self.push_spec(bus, Reg16::HL)),
                0xF5 => Self::done_with(self.push_spec(bus, Reg16::AF)),
                0xFE => Self::done(self.cp_spec(bus, Imm8), bus),
                _ => (self, bus, Err(self.unimplemented())),
            }
        }
    }

    /// The engine with one more cycle counted.
    pub open spec fn counted(self) -> Cpu {
        Cpu { cycle: self.cycle.wrapping_add(1), ..self }
    }

    /// One machine cycle: of the entry into the service routine where an
    /// interrupt was latched at the fetch, else of the opcode in flight.
    pub open spec fn cycle_spec(self, bus: BusView) -> (Cpu, BusView, Result<(), CoreError>) {
        if self.ctx.int {
            Self::done_with(self.counted().call_isr_spec(bus))
        } else {
            self.counted().decode_spec(bus)
        }
    }

    /// The engine at reset.
    pub fn new() -> (r: Self)
        ensures
            r == Cpu::reset(),
            r.is_idle(),
    {
        Cpu {
            cycle: 0,
            regs: Registers::default(),
            interrupts: Interrupts::default(),
            ctx: Ctx { opcode: 0, cb: false, int: false },
            phase: Phase::Start,
            access: Access::Idle,
        }
    }

    /// Whether no instruction is part-way through.
    #[verifier::when_used_as_spec(spec_is_idle)]
    pub fn is_idle(&self) -> (b: bool)
        ensures
            b == (self.phase == Phase::Start && self.access == Access::Idle),
    {
        self.phase == Phase::Start && self.access == Access::Idle
    }

    /// The address that the opcode in flight was fetched from: the program
    /// counter has moved one past it.
    #[verifier::when_used_as_spec(spec_instruction_addr)]
    pub fn instruction_addr(&self) -> (addr: u16)
        ensures
            addr == self.regs.pc.wrapping_sub(1),
    {
        self.regs.pc.wrapping_sub(1)
    }

    fn gap(&self) -> (e: CoreError)
        ensures
            e == self.unimplemented(),
    {
        CoreError::UnimplementedOpcode { opcode: self.ctx.opcode, cb: self.ctx.cb, pc: self.regs.pc }
    }

    /// Primes the next instruction: latches the opcode at the program
    /// counter, moves the program counter past it, latches whether an
    /// interrupt is actionable, and clears every trace of the instruction
    /// before.
    pub fn fetch(&mut self, bus: &Peripherals)
        ensures
            *final(self) == old(self).fetch_spec(bus@),
            final(self).is_idle(),
            bus@.wf(),
    {
        self.ctx.opcode = bus.read(&self.interrupts, self.regs.pc);
        self.ctx.int = self.interrupts.actionable();
        self.regs.pc = self.regs.pc.wrapping_add(1);
        self.ctx.cb = false;
        self.cycle = 0;
        self.phase = Phase::Start;
        self.access = Access::Idle;
    }
}

impl Cpu {
    /// Steps the engine by one machine cycle. Where an interrupt was
    /// latched at the last fetch the cycle belongs to the entry into its
    /// service routine, else to the opcode in flight. Fails, cycle after
    /// cycle, where the opcode has no decode entry; the registers and the
    /// bus are then left as they were.
    pub fn emulate_cycle(&mut self, bus: &mut Peripherals) -> (r: Result<(), CoreError>)
        ensures
            (*final(self), final(bus)@, r) == old(self).cycle_spec(old(bus)@),
            old(self).regs.wf() ==> final(self).regs.wf(),
            r is Err ==> r == Err::<(), CoreError>(final(self).unimplemented()) && final(bus)@ == old(bus)@
                && final(self).regs == old(self).regs,
    {
        proof {
            if self.regs.wf() {
                law_cycle_keeps_flags_well_formed(*self, bus@);
            }
            if self.cycle_spec(bus@).2 is Err {
                law_gap_is_fatal(*self, bus@);
            }
        }
        self.cycle = self.cycle.wrapping_add(1);
        if self.ctx.int {
            self.call_isr(bus);
            Ok(())
        } else {
            self.decode(bus)
        }
    }

    /// Advances the entry into an interrupt service routine by one cycle.
    pub fn call_isr(&mut self, bus: &mut Peripherals)
        ensures
            (*final(self), final(bus)@) == old(self).call_isr_spec(old(bus)@),
    {
        match self.phase {
            Phase::Settle => {
                if let Some(vector) = self.interrupts.acknowledge() {
                    self.regs.pc = vector;
                }
                self.fetch(bus);
            },
            _ => {
                let pc = self.regs.pc;
                if self.push16(bus, pc).is_some() {
                    self.phase = Phase::Settle;
                }
            },
        }
    }

    /// Advances the prefix of the extended table by one cycle: reads the
    /// opcode that follows and, in the cycle in which it arrives, makes it
    /// the opcode in flight and decodes it.
    pub fn cb_prefixed(&mut self, bus: &mut Peripherals) -> (r: Result<(), CoreError>)
        ensures
            (*final(self), final(bus)@, r) == old(self).cb_prefixed_spec(old(bus)@),
    {
        match self.read8(bus, Imm8) {
            Some(v) => {
                self.ctx.opcode = v;
                self.ctx.cb = true;
                self.cb_decode(bus)
            },
            None => Ok(()),
        }
    }

    /// Advances the opcode in flight by one cycle. Fails where the opcode
    /// has no decode entry, and changes nothing then.
    pub fn decode(&mut self, bus: &mut Peripherals) -> (r: Result<(), CoreError>)
        ensures
            (*final(self), final(bus)@, r) == old(self).decode_spec(old(bus)@),
    {
        if self.ctx.cb {
            return self.cb_decode(bus);
        }
        match self.ctx.opcode {
            0x00 => {
                self.nop(bus);
                Ok(())
            },
            0x06 => self.ld(bus, Reg8::B, Imm8),
            0x0E => self.ld(bus, Reg8::C, Imm8),
            0x1A => self.ld(bus, Reg8::A, Indirect::DE),
            0x22 => self.ld(bus, Indirect::HLI, Reg8::A),
            0x32 => self.ld(bus, Indirect::HLD, Reg8::A),
            0x2E => self.ld(bus, Reg8::L, Imm8),
            0x3E => self.ld(bus, Reg8::A, Imm8),
            0x47 => self.ld(bus, Reg8::B, Reg8::A),
            0x57 => self.ld(bus, Reg8::D, Reg8::A),
            0x79 => self.ld(bus, Reg8::A, Reg8::C),
            0x7A => self.ld(bus, Reg8::A, Reg8::D),
            0x7B => self.ld(bus, Reg8::A, Reg8::E),
            0xE0 => self.ld(bus, Direct8::DFF, Reg8::A),
            0xEA => self.ld(bus, Direct8::D, Reg8::A),
            0x01 => self.ld16(bus, Reg16::BC, Imm16),
            0x11 => self.ld16(bus, Reg16::DE, Imm16),
            0x21 => self.ld16(bus, Reg16::HL, Imm16),
            0x31 => self.ld16(bus, Reg16::SP, Imm16),
            0x13 => self.inc16(bus, Reg16::DE),
            0x23 => self.inc16(bus, Reg16::HL),
            0x05 => self.dec(bus, Reg8::B),
            0x15 => self.dec(bus, Reg8::D),
            0x0D => self.dec(bus, Reg8::C),
            0x3D => self.dec(bus, Reg8::A),
            0x18 => {
                self.jr(bus);
                Ok(())
            },
            0x20 => {
                self.jr_c(bus, Cond::NZ);
                Ok(())
            },
            0x28 => {
                self.jr_c(bus, Cond::Z);
                Ok(())
            },
            0xC3 => {
                self.jp(bus);
                Ok(())
            },
            0xC9 => {
                self.ret(bus);
                Ok(())
            },
            0xCB => self.cb_prefixed(bus),
            0xCD => {
                self.call(bus);
                Ok(())
            },
            0xC1 => {
                self.pop(bus, Reg16::BC);
                Ok(())
            },
            0xF1 => {
                self.pop(bus, Reg16::AF);
                Ok(())
            },
            0xC5 => {
                self.push(bus, Reg16::BC);
                Ok(())
            },
            0xE5 => {
                self.push(bus, Reg16::HL);
                Ok(())
            },
            0xF5 => {
                self.push(bus, Reg16::AF);
                Ok(())
            },
            0xFE => {
                self.cp(bus, Imm8);
                Ok(())
            },
            _ => Err(self.gap()),
        }
    }

    /// Advances an opcode of the extended table by one cycle. Fails where
    /// the opcode has no decode entry, and changes nothing then.
    pub fn cb_decode(&mut self, bus: &mut Peripherals) -> (r: Result<(), CoreError>)
        ensures
            (*final(self), final(bus)@, r) == old(self).cb_decode_spec(old(bus)@),
    {
        match self.ctx.opcode {
            0x10 => self.rl(bus, Reg8::B),
            0x11 => self.rl(bus, Reg8::C),
            0x6C => {
                self.bit(bus, 5, Reg8::H);
                Ok(())
            },
            _ => Err(self.gap()),
        }
    }
}

} // verus!
