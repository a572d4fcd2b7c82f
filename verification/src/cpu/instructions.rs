//! The instructions. Each is a small automaton over the engine's recorded
//! progress: a call does the work of one cycle, and the call that ends the
//! instruction fetches the next opcode.

use vstd::prelude::*;
use crate::cpu::operand::{reg16_of, with_reg16, Cond, Imm16, Imm8, Reg16, IO16, IO8};
use crate::cpu::{Access, Cpu, Phase};
use crate::error::CoreError;
use crate::peripherals::{BusView, Peripherals};
use crate::registers::{hi, high_byte, join, lo, low_byte, pack, Registers};

verus! {

/// The offset of a relative jump as a number from -128 to 127.
pub open spec fn signed(offset: u8) -> int {
    if offset < 128 {
        offset as int
    } else {
        offset - 256
    }
}

/// The target of a relative jump: the program counter plus the signed
/// offset, modulo 2^16.
pub open spec fn relative(pc: u16, offset: u8) -> u16 {
    ((pc + signed(offset)) % 0x1_0000) as u16
}

/// The byte that rotating `v` left through the carry gives: `v` shifted up
/// by one bit, with the old carry in bit 0.
pub open spec fn rotated_left(v: u8, carry: bool) -> u8 {
    ((2 * v + if carry {
        1int
    } else {
        0
    }) % 0x100) as u8
}

/// Whether bit `bit` of `v` is clear.
pub open spec fn bit_clear(v: u8, bit: usize) -> bool {
    v & (1u8 << bit) == 0
}

/// Whether a condition holds of the flags.
pub open spec fn cond_holds(regs: Registers, c: Cond) -> bool {
    match c {
        Cond::NZ => !regs.zf(),
        Cond::Z => regs.zf(),
        Cond::NC => !regs.cf(),
        Cond::C => regs.cf(),
    }
}

/// The register file after `v` was incremented: zero from the result,
/// subtract clear, half-carry where the low four bits were all set. The
/// carry flag is left alone.
pub open spec fn inc_flags(regs: Registers, v: u8) -> Registers {
    regs.with_znh(v.wrapping_add(1) == 0, false, v % 16 == 15)
}

/// The register file after `v` was decremented: zero from the result,
/// subtract set, half-carry where the low four bits were all clear. The
/// carry flag is left alone.
pub open spec fn dec_flags(regs: Registers, v: u8) -> Registers {
    regs.with_znh(v.wrapping_sub(1) == 0, true, v % 16 == 0)
}

/// The register file after `A` was compared with `v`: the flags of
/// `A - v`, which is not stored.
pub open spec fn cp_flags(regs: Registers, v: u8) -> Registers {
    regs.with_flags(regs.a == v, true, regs.a % 16 < v % 16, regs.a < v)
}

/// The register file after bit `bit` of `v` was tested: zero where the bit
/// is clear, subtract clear, half-carry set. The carry flag is left alone.
pub open spec fn bit_flags(regs: Registers, bit: usize, v: u8) -> Registers {
    regs.with_znh(bit_clear(v, bit), false, true)
}

/// The register file after `v` was rotated left through the carry: zero
/// from the result, subtract and half-carry clear, carry from bit 7 of `v`.
pub open spec fn rl_flags(regs: Registers, v: u8) -> Registers {
    regs.with_flags(rotated_left(v, regs.cf()) == 0, false, false, v >= 128)
}

proof fn lemma_rotate_bits(v: u8, c: u8)
    by (bit_vector)
    requires
        c <= 1,
    ensures
        v < 128 ==> (v << 1) | c == 2 * v + c,
        v >= 128 ==> (v << 1) | c == 2 * (v - 128) + c,
        (v & 0x80 != 0) == (v >= 128),
{
}

/// The target of a relative jump.
pub fn jump_target(pc: u16, offset: u8) -> (target: u16)
    ensures
        target == relative(pc, offset),
{
    if offset < 128 {
        pc.wrapping_add(offset as u16)
    } else {
        pc.wrapping_sub(256 - (offset as u16))
    }
}

impl Cpu {
    /// The engine with the progress of the instruction replaced.
    pub open spec fn with_phase(self, phase: Phase) -> Cpu {
        Cpu { phase, ..self }
    }

    /// The engine with the register file replaced.
    pub open spec fn with_regs(self, regs: Registers) -> Cpu {
        Cpu { regs, ..self }
    }

    /// The engine with the program counter replaced.
    pub open spec fn with_pc(self, pc: u16) -> Cpu {
        Cpu { regs: Registers { pc, ..self.regs }, ..self }
    }

    /// The engine with the stack pointer replaced.
    pub open spec fn with_sp(self, sp: u16) -> Cpu {
        Cpu { regs: Registers { sp, ..self.regs }, ..self }
    }

    /// One cycle of a push of `val`: an idle cycle, then the high byte,
    /// then the low byte, each written below the stack pointer after it was
    /// stepped down. The answer is `Some` in the cycle that writes the low
    /// byte.
    pub open spec fn push16_spec(self, bus: BusView, val: u16) -> (Cpu, BusView, Option<()>) {
        let sp = self.regs.sp.wrapping_sub(1);
        match self.access {
            Access::Armed => {
                let (cpu, after) = self.with_sp(sp).bus_write(bus, sp, high_byte(val));
                (cpu.with_access(Access::Low(low_byte(val))), after, None)
            },
            Access::Low(low) => {
                let (cpu, after) = self.with_sp(sp).bus_write(bus, sp, low);
                (cpu.with_access(Access::Idle), after, Some(()))
            },
            _ => (self.with_access(Access::Armed), bus, None),
        }
    }

    /// One cycle of a pop: the low byte, then the high byte, each read at
    /// the stack pointer before it is stepped up, then the cycle that hands
    /// the word out.
    pub open spec fn pop16_spec(self, bus: BusView) -> (Cpu, Option<u16>) {
        let byte = self.bus_read(bus, self.regs.sp);
        let sp = self.regs.sp.wrapping_add(1);
        match self.access {
            Access::Low(low) => (self.with_sp(sp).with_access(Access::Word(pack(byte, low))), None),
            Access::Word(w) => (self.with_access(Access::Idle), Some(w)),
            _ => (self.with_sp(sp).with_access(Access::Low(byte)), None),
        }
    }

    /// One cycle of writing the latched byte `v` to `dst`; the cycle in
    /// which the write ends fetches the next opcode.
    pub open spec fn store8_spec<D: Copy>(self, bus: BusView, dst: D, v: u8) -> (
        Cpu,
        BusView,
        Result<(), CoreError>,
    ) where Self: IO8<D> {
        let (cpu, after, r) = self.write8_spec(bus, dst, v);
        match r {
            Ok(Some(_)) => (cpu.fetch_spec(after), after, Ok(())),
            Ok(None) => (cpu, after, Ok(())),
            Err(e) => (cpu, after, Err(e)),
        }
    }

    /// One cycle of a load of a byte.
    pub open spec fn ld_spec<D: Copy, S: Copy>(self, bus: BusView, dst: D, src: S) -> (
        Cpu,
        BusView,
        Result<(), CoreError>,
    ) where Self: IO8<D> + IO8<S> {
        match self.phase {
            Phase::Store8(v) => self.store8_spec(bus, dst, v),
            _ => {
                let (cpu, r) = self.read8_spec(bus, src);
                match r {
                    Some(v) => cpu.with_phase(Phase::Store8(v)).store8_spec(bus, dst, v),
                    None => (cpu, bus, Ok(())),
                }
            },
        }
    }

    /// One cycle of writing the latched word `v` to `dst`; the cycle in
    /// which the write ends fetches the next opcode.
    pub open spec fn store16_spec<D: Copy>(self, bus: BusView, dst: D, v: u16) -> (
        Cpu,
        BusView,
        Result<(), CoreError>,
    ) where Self: IO16<D> {
        let (cpu, after, r) = self.write16_spec(bus, dst, v);
        match r {
            Ok(Some(_)) => (cpu.fetch_spec(after), after, Ok(())),
            Ok(None) => (cpu, after, Ok(())),
            Err(e) => (cpu, after, Err(e)),
        }
    }

    /// One cycle of a load of a word.
    pub open spec fn ld16_spec<D: Copy, S: Copy>(self, bus: BusView, dst: D, src: S) -> (
        Cpu,
        BusView,
        Result<(), CoreError>,
    ) where Self: IO16<D> + IO16<S> {
        match self.phase {
            Phase::Store16(v) => self.store16_spec(bus, dst, v),
            _ => {
                let (cpu, r) = self.read16_spec(bus, src);
                match r {
                    Some(v) => cpu.with_phase(Phase::Store16(v)).store16_spec(bus, dst, v),
                    None => (cpu, bus, Ok(())),
                }
            },
        }
    }

    /// One cycle of a comparison of `A` with the operand.
    pub open spec fn cp_spec<S: Copy>(self, bus: BusView, src: S) -> Cpu where Self: IO8<S> {
        let (cpu, r) = self.read8_spec(bus, src);
        match r {
            Some(v) => cpu.with_regs(cp_flags(cpu.regs, v)).fetch_spec(bus),
            None => cpu,
        }
    }

    /// One cycle of a test of bit `bit` of the operand.
    pub open spec fn bit_spec<S: Copy>(self, bus: BusView, bit: usize, src: S) -> Cpu where Self: IO8<S> {
        let (cpu, r) = self.read8_spec(bus, src);
        match r {
            Some(v) => cpu.with_regs(bit_flags(cpu.regs, bit, v)).fetch_spec(bus),
            None => cpu,
        }
    }

    /// One cycle of a decrement of a byte.
    pub open spec fn dec_spec<S: Copy>(self, bus: BusView, src: S) -> (Cpu, BusView, Result<(), CoreError>) where
        Self: IO8<S>,
     {
        match self.phase {
            Phase::Store8(v) => self.store8_spec(bus, src, v),
            _ => {
                let (cpu, r) = self.read8_spec(bus, src);
                match r {
                    Some(v) => cpu.with_regs(dec_flags(cpu.regs, v)).with_phase(
                        Phase::Store8(v.wrapping_sub(1)),
                    ).store8_spec(bus, src, v.wrapping_sub(1)),
                    None => (cpu, bus, Ok(())),
                }
            },
        }
    }

    /// One cycle of an increment of a byte.
    pub open spec fn inc_spec<S: Copy>(self, bus: BusView, src: S) -> (Cpu, BusView, Result<(), CoreError>) where
        Self: IO8<S>,
     {
        match self.phase {
            Phase::Store8(v) => self.store8_spec(bus, src, v),
            _ => {
                let (cpu, r) = self.read8_spec(bus, src);
                match r {
                    Some(v) => cpu.with_regs(inc_flags(cpu.regs, v)).with_phase(
                        Phase::Store8(v.wrapping_add(1)),
                    ).store8_spec(bus, src, v.wrapping_add(1)),
                    None => (cpu, bus, Ok(())),
                }
            },
        }
    }

    /// One cycle of a rotation of a byte left through the carry.
    pub open spec fn rl_spec<S: Copy>(self, bus: BusView, src: S) -> (Cpu, BusView, Result<(), CoreError>) where
        Self: IO8<S>,
     {
        match self.phase {
            Phase::Store8(v) => self.store8_spec(bus, src, v),
            _ => {
                let (cpu, r) = self.read8_spec(bus, src);
                match r {
                    Some(v) => cpu.with_regs(rl_flags(cpu.regs, v)).with_phase(
                        Phase::Store8(rotated_left(v, cpu.regs.cf())),
                    ).store8_spec(bus, src, rotated_left(v, cpu.regs.cf())),
                    None => (cpu, bus, Ok(())),
                }
            },
        }
    }

    /// One cycle of writing the latched word `v` back to `dst`; the cycle
    /// after the write ends the instruction.
    pub open spec fn settle16_spec<D: Copy>(self, bus: BusView, dst: D, v: u16) -> (
        Cpu,
        BusView,
        Result<(), CoreError>,
    ) where Self: IO16<D> {
        let (cpu, after, r) = self.write16_spec(bus, dst, v);
        match r {
            Ok(Some(_)) => (cpu.with_phase(Phase::Settle), after, Ok(())),
            Ok(None) => (cpu, after, Ok(())),
            Err(e) => (cpu, after, Err(e)),
        }
    }

    /// One cycle of an increment of a word, for `up`, or of a decrement.
    pub open spec fn step16_spec<S: Copy>(self, bus: BusView, src: S, up: bool) -> (
        Cpu,
        BusView,
        Result<(), CoreError>,
    ) where Self: IO16<S> {
        match self.phase {
            Phase::Settle => (self.fetch_spec(bus), bus, Ok(())),
            Phase::Store16(v) => self.settle16_spec(bus, src, v),
            _ => {
                let (cpu, r) = self.read16_spec(bus, src);
                match r {
                    Some(v) => {
                        let next = if up {
                            v.wrapping_add(1)
                        } else {
                            v.wrapping_sub(1)
                        };
                        cpu.with_phase(Phase::Store16(next)).settle16_spec(bus, src, next)
                    },
                    None => (cpu, bus, Ok(())),
                }
            },
        }
    }

    /// One cycle of a relative jump: taken always for `None`, else where
    /// the condition holds of the flags in the cycle in which the offset
    /// arrives.
    pub open spec fn jump_relative_spec(self, bus: BusView, c: Option<Cond>) -> Cpu {
        match self.phase {
            Phase::Settle => self.fetch_spec(bus),
            _ => {
                let (cpu, r) = self.read8_spec(bus, Imm8);
                match r {
                    Some(v) => {
                        let taken = match c {
                            Some(cond) => cond_holds(cpu.regs, cond),
                            None => true,
                        };
                        if taken {
                            cpu.with_pc(relative(cpu.regs.pc, v)).with_phase(Phase::Settle)
                        } else {
                            cpu.with_phase(Phase::Settle)
                        }
                    },
                    None => cpu,
                }
            },
        }
    }

    /// One cycle of pushing the latched word `v`.
    pub open spec fn pushing_spec(self, bus: BusView, v: u16) -> (Cpu, BusView) {
        let (cpu, after, r) = self.push16_spec(bus, v);
        match r {
            Some(_) => (cpu.with_phase(Phase::Settle), after),
            None => (cpu, after),
        }
    }

    /// One cycle of a push of a register pair.
    pub open spec fn push_spec(self, bus: BusView, src: Reg16) -> (Cpu, BusView) {
        match self.phase {
            Phase::Settle => (self.fetch_spec(bus), bus),
            Phase::Store16(v) => self.pushing_spec(bus, v),
            _ => self.with_phase(Phase::Store16(reg16_of(self.regs, src))).pushing_spec(
                bus,
                reg16_of(self.regs, src),
            ),
        }
    }

    /// One cycle of a pop into a register pair.
    pub open spec fn pop_spec(self, bus: BusView, dst: Reg16) -> Cpu {
        let (cpu, r) = self.pop16_spec(bus);
        match r {
            Some(v) => cpu.with_regs(with_reg16(cpu.regs, dst, v)).fetch_spec(bus),
            None => cpu,
        }
    }

    /// One cycle of a return.
    pub open spec fn ret_spec(self, bus: BusView) -> Cpu {
        match self.phase {
            Phase::Settle => self.fetch_spec(bus),
            _ => {
                let (cpu, r) = self.pop16_spec(bus);
                match r {
                    Some(v) => cpu.with_pc(v).with_phase(Phase::Settle),
                    None => cpu,
                }
            },
        }
    }

    /// One cycle of the part of a call that pushes the program counter and
    /// then jumps to the latched target.
    pub open spec fn calling_spec(self, bus: BusView, target: u16) -> (Cpu, BusView) {
        let (cpu, after, r) = self.push16_spec(bus, self.regs.pc);
        match r {
            Some(_) => (cpu.with_pc(target).with_phase(Phase::Settle), after),
            None => (cpu, after),
        }
    }

    /// One cycle of a call.
    pub open spec fn call_spec(self, bus: BusView) -> (Cpu, BusView) {
        match self.phase {
            Phase::Settle => (self.fetch_spec(bus), bus),
            Phase::Store16(target) => self.calling_spec(bus, target),
            _ => {
                let (cpu, r) = self.read16_spec(bus, Imm16);
                match r {
                    Some(target) => cpu.with_phase(Phase::Store16(target)).calling_spec(bus, target),
                    None => (cpu, bus),
                }
            },
        }
    }

    /// One cycle of an absolute jump.
    pub open spec fn jp_spec(self, bus: BusView) -> Cpu {
        let (cpu, r) = self.read16_spec(bus, Imm16);
        match r {
            Some(target) => cpu.with_pc(target).fetch_spec(bus),
            None => cpu,
        }
    }

    /// Does nothing for one cycle, which fetches the next opcode.
    pub fn nop(&mut self, bus: &Peripherals)
        ensures
            *final(self) == old(self).fetch_spec(bus@),
    {
        self.fetch(bus);
    }

    fn store8<D: Copy>(&mut self, bus: &mut Peripherals, dst: D, v: u8) -> (r: Result<(), CoreError>) where
        Self: IO8<D>,

        ensures
            (*final(self), final(bus)@, r) == old(self).store8_spec(old(bus)@, dst, v),
    {
        match self.write8(bus, dst, v) {
            Ok(Some(_)) => {
                self.fetch(bus);
                Ok(())
            },
            Ok(None) => Ok(()),
            Err(e) => Err(e),
        }
    }

    fn store16<D: Copy>(&mut self, bus: &mut Peripherals, dst: D, v: u16) -> (r: Result<(), CoreError>) where
        Self: IO16<D>,

        ensures
            (*final(self), final(bus)@, r) == old(self).store16_spec(old(bus)@, dst, v),
    {
        match self.write16(bus, dst, v) {
            Ok(Some(_)) => {
                self.fetch(bus);
                Ok(())
            },
            Ok(None) => Ok(()),
            Err(e) => Err(e),
        }
    }

    fn settle16<D: Copy>(&mut self, bus: &mut Peripherals, dst: D, v: u16) -> (r: Result<(), CoreError>) where
        Self: IO16<D>,

        ensures
            (*final(self), final(bus)@, r) == old(self).settle16_spec(old(bus)@, dst, v),
    {
        match self.write16(bus, dst, v) {
            Ok(Some(_)) => {
                self.phase = Phase::Settle;
                Ok(())
            },
            Ok(None) => Ok(()),
            Err(e) => Err(e),
        }
    }

    /// Loads a byte: reads `src`, then writes it to `dst`, then fetches.
    /// The byte read is kept while the write goes on. Fails where `dst`
    /// cannot be written.
    pub fn ld<D: Copy, S: Copy>(&mut self, bus: &mut Peripherals, dst: D, src: S) -> (r: Result<
        (),
        CoreError,
    >) where Self: IO8<D> + IO8<S>
        ensures
            (*final(self), final(bus)@, r) == old(self).ld_spec(old(bus)@, dst, src),
    {
        let v: u8 = match self.phase {
            Phase::Store8(v) => v,
            _ => match self.read8(bus, src) {
                Some(v) => {
                    self.phase = Phase::Store8(v);
                    v
                },
                None => {
                    return Ok(());
                },
            },
        };
        self.store8(bus, dst, v)
    }

    /// Loads a word: reads `src`, then writes it to `dst`, then fetches.
    /// Fails where `dst` cannot be written.
    pub fn ld16<D: Copy, S: Copy>(&mut self, bus: &mut Peripherals, dst: D, src: S) -> (r: Result<
        (),
        CoreError,
    >) where Self: IO16<D> + IO16<S>
        ensures
            (*final(self), final(bus)@, r) == old(self).ld16_spec(old(bus)@, dst, src),
    {
        let v: u16 = match self.phase {
            Phase::Store16(v) => v,
            _ => match self.read16(bus, src) {
                Some(v) => {
                    self.phase = Phase::Store16(v);
                    v
                },
                None => {
                    return Ok(());
                },
            },
        };
        self.store16(bus, dst, v)
    }

    /// Compares `A` with the operand: sets the flags of `A` minus the
    /// operand and stores nothing, then fetches.
    pub fn cp<S: Copy>(&mut self, bus: &Peripherals, src: S) where Self: IO8<S>
        ensures
            *final(self) == old(self).cp_spec(bus@, src),
    {
        if let Some(v) = self.read8(bus, src) {
            let a = self.regs.a;
            self.regs.set_flags(a == v, true, a % 16 < v % 16, a < v);
            self.fetch(bus);
        }
    }

    /// Tests bit `bit` of the operand: the zero flag tells whether it is
    /// clear; subtract is cleared, half-carry set, carry left alone. Then
    /// fetches.
    pub fn bit<S: Copy>(&mut self, bus: &Peripherals, bit: usize, src: S) where Self: IO8<S>
        requires
            bit < 8,
        ensures
            *final(self) == old(self).bit_spec(bus@, bit, src),
    {
        if let Some(v) = self.read8(bus, src) {
            self.regs.set_znh(v & (1u8 << bit) == 0, false, true);
            self.fetch(bus);
        }
    }

    /// Decrements the operand, modulo 256: reads it, sets zero, subtract
    /// and half-carry, writes the result back, then fetches. Carry is left
    /// alone. Fails where the operand cannot be written.
    pub fn dec<S: Copy>(&mut self, bus: &mut Peripherals, src: S) -> (r: Result<(), CoreError>) where
        Self: IO8<S>,

        ensures
            (*final(self), final(bus)@, r) == old(self).dec_spec(old(bus)@, src),
    {
        let result: u8 = match self.phase {
            Phase::Store8(v) => v,
            _ => match self.read8(bus, src) {
                Some(v) => {
                    let result = v.wrapping_sub(1);
                    self.regs.set_znh(result == 0, true, v % 16 == 0);
                    self.phase = Phase::Store8(result);
                    result
                },
                None => {
                    return Ok(());
                },
            },
        };
        self.store8(bus, src, result)
    }

    /// Decrements the operand, modulo 2^16, with no flag touched; one
    /// cycle passes between the write and the fetch. Fails where the
    /// operand cannot be written.
    pub fn dec16<S: Copy>(&mut self, bus: &mut Peripherals, src: S) -> (r: Result<(), CoreError>) where
        Self: IO16<S>,

        ensures
            (*final(self), final(bus)@, r) == old(self).step16_spec(old(bus)@, src, false),
    {
        self.step16(bus, src, false)
    }

    /// Increments the operand, modulo 256: reads it, sets zero, subtract
    /// and half-carry, writes the result back, then fetches. Carry is left
    /// alone. Fails where the operand cannot be written.
    pub fn inc<S: Copy>(&mut self, bus: &mut Peripherals, src: S) -> (r: Result<(), CoreError>) where
        Self: IO8<S>,

        ensures
            (*final(self), final(bus)@, r) == old(self).inc_spec(old(bus)@, src),
    {
        let result: u8 = match self.phase {
            Phase::Store8(v) => v,
            _ => match self.read8(bus, src) {
                Some(v) => {
                    let result = v.wrapping_add(1);
                    self.regs.set_znh(result == 0, false, v % 16 == 15);
                    self.phase = Phase::Store8(result);
                    result
                },
                None => {
                    return Ok(());
                },
            },
        };
        self.store8(bus, src, result)
    }

    /// Increments the operand, modulo 2^16, with no flag touched; one
    /// cycle passes between the write and the fetch. Fails where the
    /// operand cannot be written.
    pub fn inc16<S: Copy>(&mut self, bus: &mut Peripherals, src: S) -> (r: Result<(), CoreError>) where
        Self: IO16<S>,

        ensures
            (*final(self), final(bus)@, r) == old(self).step16_spec(old(bus)@, src, true),
    {
        self.step16(bus, src, true)
    }

    fn step16<S: Copy>(&mut self, bus: &mut Peripherals, src: S, up: bool) -> (r: Result<(), CoreError>) where
        Self: IO16<S>,

        ensures
            (*final(self), final(bus)@, r) == old(self).step16_spec(old(bus)@, src, up),
    {
        let next: u16 = match self.phase {
            Phase::Settle => {
                self.fetch(bus);
                return Ok(());
            },
            Phase::Store16(v) => v,
            _ => match self.read16(bus, src) {
                Some(v) => {
                    let next = if up {
                        v.wrapping_add(1)
                    } else {
                        v.wrapping_sub(1)
                    };
                    self.phase = Phase::Store16(next);
                    next
                },
                None => {
                    return Ok(());
                },
            },
        };
        self.settle16(bus, src, next)
    }

    /// Jumps by the signed offset at the program counter. One cycle passes
    /// between the jump and the fetch.
    pub fn jr(&mut self, bus: &Peripherals)
        ensures
            *final(self) == old(self).jump_relative_spec(bus@, None),
    {
        self.jump_relative(bus, None);
    }

    /// Whether a condition holds of the flags.
    pub fn cond(&self, cond: Cond) -> (b: bool)
        ensures
            b == cond_holds(self.regs, cond),
    {
        match cond {
            Cond::NZ => !self.regs.zf(),
            Cond::Z => self.regs.zf(),
            Cond::NC => !self.regs.cf(),
            Cond::C => self.regs.cf(),
        }
    }

    /// Jumps by the signed offset at the program counter where the
    /// condition holds. It takes as many cycles where it does not.
    pub fn jr_c(&mut self, bus: &Peripherals, c: Cond)
        ensures
            *final(self) == old(self).jump_relative_spec(bus@, Some(c)),
    {
        self.jump_relative(bus, Some(c));
    }

    fn jump_relative(&mut self, bus: &Peripherals, c: Option<Cond>)
        ensures
            *final(self) == old(self).jump_relative_spec(bus@, c),
    {
        match self.phase {
            Phase::Settle => {
                self.fetch(bus);
            },
            _ => {
                if let Some(v) = self.read8(bus, Imm8) {
                    let taken = match c {
                        Some(cond) => self.cond(cond),
                        None => true,
                    };
                    if taken {
                        self.regs.pc = jump_target(self.regs.pc, v);
                    }
                    self.phase = Phase::Settle;
                }
            },
        }
    }

    /// Rotates the operand left through the carry: reads it, sets the
    /// flags, writes the result back, then fetches. Fails where the operand
    /// cannot be written.
    pub fn rl<S: Copy>(&mut self, bus: &mut Peripherals, src: S) -> (r: Result<(), CoreError>) where
        Self: IO8<S>,

        ensures
            (*final(self), final(bus)@, r) == old(self).rl_spec(old(bus)@, src),
    {
        let result: u8 = match self.phase {
            Phase::Store8(v) => v,
            _ => match self.read8(bus, src) {
                Some(v) => {
                    let carry: u8 = if self.regs.cf() {
                        1
                    } else {
                        0
                    };
                    proof {
                        lemma_rotate_bits(v, carry);
                    }
                    let result = (v << 1) | carry;
                    self.regs.set_flags(result == 0, false, false, v & 0x80 != 0);
                    self.phase = Phase::Store8(result);
                    result
                },
                None => {
                    return Ok(());
                },
            },
        };
        self.store8(bus, src, result)
    }

    /// Advances a push of `val` by one cycle: an idle cycle, then the high
    /// byte, then the low byte, each written after the stack pointer was
    /// stepped down. `Some` in the cycle that writes the low byte.
    pub fn push16(&mut self, bus: &mut Peripherals, val: u16) -> (r: Option<()>)
        ensures
            (*final(self), final(bus)@, r) == old(self).push16_spec(old(bus)@, val),
    {
        match self.access {
            Access::Armed => {
                self.regs.sp = self.regs.sp.wrapping_sub(1);
                bus.write(&mut self.interrupts, self.regs.sp, hi(val));
                self.access = Access::Low(lo(val));
                None
            },
            Access::Low(low) => {
                self.regs.sp = self.regs.sp.wrapping_sub(1);
                bus.write(&mut self.interrupts, self.regs.sp, low);
                self.access = Access::Idle;
                Some(())
            },
            _ => {
                self.access = Access::Armed;
                None
            },
        }
    }

    fn pushing(&mut self, bus: &mut Peripherals, v: u16)
        ensures
            (*final(self), final(bus)@) == old(self).pushing_spec(old(bus)@, v),
    {
        if self.push16(bus, v).is_some() {
            self.phase = Phase::Settle;
        }
    }

    /// Pushes a register pair. One cycle passes between the push and the
    /// fetch.
    pub fn push(&mut self, bus: &mut Peripherals, src: Reg16)
        ensures
            (*final(self), final(bus)@) == old(self).push_spec(old(bus)@, src),
    {
        match self.phase {
            Phase::Settle => {
                self.fetch(bus);
            },
            Phase::Store16(v) => {
                self.pushing(bus, v);
            },
            _ => {
                let v = match self.read16(bus, src) {
                    Some(v) => v,
                    None => 0,
                };
                self.phase = Phase::Store16(v);
                self.pushing(bus, v);
            },
        }
    }

    /// Advances a pop by one cycle: the low byte, then the high byte, each
    /// read before the stack pointer is stepped up, then the word.
    pub fn pop16(&mut self, bus: &Peripherals) -> (r: Option<u16>)
        ensures
            (*final(self), r) == old(self).pop16_spec(bus@),
    {
        match self.access {
            Access::Low(low) => {
                let high = bus.read(&self.interrupts, self.regs.sp);
                self.regs.sp = self.regs.sp.wrapping_add(1);
                self.access = Access::Word(join(high, low));
                None
            },
            Access::Word(w) => {
                self.access = Access::Idle;
                Some(w)
            },
            _ => {
                let low = bus.read(&self.interrupts, self.regs.sp);
                self.regs.sp = self.regs.sp.wrapping_add(1);
                self.access = Access::Low(low);
                None
            },
        }
    }

    /// Pops a word into a register pair, then fetches.
    pub fn pop(&mut self, bus: &mut Peripherals, dst: Reg16)
        ensures
            *final(self) == old(self).pop_spec(old(bus)@, dst),
            final(bus)@ == old(bus)@,
    {
        if let Some(v) = self.pop16(bus) {
            let _ = self.write16(bus, dst, v);
            self.fetch(bus);
        }
    }

    /// Returns: pops the program counter. One cycle passes between the pop
    /// and the fetch.
    pub fn ret(&mut self, bus: &Peripherals)
        ensures
            *final(self) == old(self).ret_spec(bus@),
    {
        match self.phase {
            Phase::Settle => {
                self.fetch(bus);
            },
            _ => {
                if let Some(v) = self.pop16(bus) {
                    self.regs.pc = v;
                    self.phase = Phase::Settle;
                }
            },
        }
    }

    fn calling(&mut self, bus: &mut Peripherals, target: u16)
        ensures
            (*final(self), final(bus)@) == old(self).calling_spec(old(bus)@, target),
    {
        let pc = self.regs.pc;
        if self.push16(bus, pc).is_some() {
            self.regs.pc = target;
            self.phase = Phase::Settle;
        }
    }

    /// Calls: reads the target, pushes the program counter, which by then
    /// is the address after the call, and jumps. One cycle passes between
    /// the jump and the fetch.
    pub fn call(&mut self, bus: &mut Peripherals)
        ensures
            (*final(self), final(bus)@) == old(self).call_spec(old(bus)@),
    {
        match self.phase {
            Phase::Settle => {
                self.fetch(bus);
            },
            Phase::Store16(target) => {
                self.calling(bus, target);
            },
            _ => {
                if let Some(target) = self.read16(bus, Imm16) {
                    self.phase = Phase::Store16(target);
                    self.calling(bus, target);
                }
            },
        }
    }

    /// Jumps to the address at the program counter, then fetches.
    pub fn jp(&mut self, bus: &Peripherals)
        ensures
            *final(self) == old(self).jp_spec(bus@),
    {
        if let Some(target) = self.read16(bus, Imm16) {
            self.regs.pc = target;
            self.fetch(bus);
        }
    }
}

} // verus!
