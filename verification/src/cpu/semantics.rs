//! What each instruction does, told without its cycles, and the proof that
//! the cycle-stepped engine does exactly that.
//!
//! The architectural state is the register file, the interrupt controller
//! and the bus. An instruction maps one such state to the next. The engine
//! reaches the same state, in the documented count of cycles, and its last
//! cycle is the fetch of the opcode that follows.

use vstd::prelude::*;
use crate::cpu::instructions::{bit_flags, cond_holds, cp_flags, dec_flags, relative, rl_flags, rotated_left};
use crate::cpu::interrupts::Interrupts;
use crate::cpu::operand::{high_page, reg8_of, with_reg16, with_reg8, Cond, Reg16, Reg8};
use crate::cpu::timing::{cycles_of, run};
use crate::cpu::Cpu;
use crate::peripherals::BusView;
use crate::registers::{high_byte, lemma_pack_split, low_byte, pack, Registers};

verus! {

/// The architectural state: what a program can observe.
pub struct Arch {
    pub regs: Registers,
    pub interrupts: Interrupts,
    pub bus: BusView,
}

impl Arch {
    /// The architectural state of an engine and a bus.
    pub open spec fn of(cpu: Cpu, bus: BusView) -> Arch {
        Arch { regs: cpu.regs, interrupts: cpu.interrupts, bus }
    }

    /// The byte at `addr`.
    pub open spec fn read(self, addr: u16) -> u8 {
        self.bus.read(self.interrupts, addr)
    }

    /// The state after `val` is written at `addr`.
    pub open spec fn write(self, addr: u16, val: u8) -> Arch {
        Arch {
            interrupts: BusView::write_interrupts(self.interrupts, addr, val),
            bus: self.bus.write(addr, val),
            ..self
        }
    }

    /// The state with the register file replaced.
    pub open spec fn with_regs(self, regs: Registers) -> Arch {
        Arch { regs, ..self }
    }

    /// The state with the program counter replaced.
    pub open spec fn jump(self, pc: u16) -> Arch {
        Arch { regs: Registers { pc, ..self.regs }, ..self }
    }

    /// The state with the program counter moved past `n` bytes.
    pub open spec fn skip(self, n: u16) -> Arch {
        self.jump(self.regs.pc.wrapping_add(n))
    }

    /// The state with an 8-bit register replaced.
    pub open spec fn set8(self, r: Reg8, val: u8) -> Arch {
        self.with_regs(with_reg8(self.regs, r, val))
    }

    /// The state with a 16-bit register or register pair replaced.
    pub open spec fn set16(self, r: Reg16, val: u16) -> Arch {
        self.with_regs(with_reg16(self.regs, r, val))
    }

    /// The byte at the program counter.
    pub open spec fn imm8(self) -> u8 {
        self.read(self.regs.pc)
    }

    /// The word at the program counter, low byte first.
    pub open spec fn imm16(self) -> u16 {
        pack(self.read(self.regs.pc.wrapping_add(1)), self.read(self.regs.pc))
    }

    /// The state after `val` is pushed: the high byte is written one below
    /// the stack pointer, then the low byte two below, and the stack
    /// pointer ends two lower.
    pub open spec fn pushed(self, val: u16) -> Arch {
        let sp1 = self.regs.sp.wrapping_sub(1);
        let sp2 = self.regs.sp.wrapping_sub(2);
        let high = self.write(sp1, high_byte(val));
        let low = high.write(sp2, low_byte(val));
        low.with_regs(Registers { sp: sp2, ..self.regs })
    }

    /// The word on top of the stack: its low byte at the stack pointer, its
    /// high byte one above.
    pub open spec fn top(self) -> u16 {
        pack(self.read(self.regs.sp.wrapping_add(1)), self.read(self.regs.sp))
    }

    /// The state with the stack pointer moved up past one word.
    pub open spec fn dropped(self) -> Arch {
        self.with_regs(Registers { sp: self.regs.sp.wrapping_add(2), ..self.regs })
    }

    /// The state after a load of register `src` into register `dst`.
    pub open spec fn ld_reg_reg(self, dst: Reg8, src: Reg8) -> Arch {
        self.set8(dst, reg8_of(self.regs, src))
    }

    /// The state after a load of the immediate byte into register `dst`.
    pub open spec fn ld_reg_imm(self, dst: Reg8) -> Arch {
        self.set8(dst, self.imm8()).skip(1)
    }

    /// The state after a load of the immediate word into `dst`.
    pub open spec fn ld16_reg_imm(self, dst: Reg16) -> Arch {
        self.set16(dst, self.imm16()).skip(2)
    }

    /// The state after `A` is stored at the address in `HL` and `HL` is
    /// moved by one, up or down.
    pub open spec fn store_and_step(self, up: bool) -> Arch {
        let hl = self.regs.hl();
        let next = if up {
            hl.wrapping_add(1)
        } else {
            hl.wrapping_sub(1)
        };
        self.write(hl, self.regs.a).with_regs(self.regs.with_hl(next))
    }

    /// The state after register `r` is decremented.
    pub open spec fn dec8(self, r: Reg8) -> Arch {
        let v = reg8_of(self.regs, r);
        self.with_regs(with_reg8(dec_flags(self.regs, v), r, v.wrapping_sub(1)))
    }

    /// The state after register `r` is rotated left through the carry.
    pub open spec fn rl8(self, r: Reg8) -> Arch {
        let v = reg8_of(self.regs, r);
        self.with_regs(with_reg8(rl_flags(self.regs, v), r, rotated_left(v, self.regs.cf())))
    }

    /// The state after a relative jump, taken always for `None`, else
    /// where the condition holds.
    pub open spec fn jr(self, c: Option<Cond>) -> Arch {
        let after = self.skip(1);
        let taken = match c {
            Some(cond) => cond_holds(self.regs, cond),
            None => true,
        };
        if taken {
            after.jump(relative(after.regs.pc, self.imm8()))
        } else {
            after
        }
    }

    /// The state after a pop into `dst`.
    pub open spec fn pop(self, dst: Reg16) -> Arch {
        self.dropped().set16(dst, self.top())
    }

    /// The state after the entry into an interrupt service routine: the
    /// program counter is pushed, the source of highest priority among
    /// those pending and enabled is acknowledged, and the program counter
    /// is its vector. Where no source is pending and enabled after the
    /// push, the program counter stays.
    pub open spec fn enter_service_routine(self) -> Arch {
        let pushed = self.pushed(self.regs.pc);
        let acked = Arch { interrupts: pushed.interrupts.acknowledged(), ..pushed };
        match pushed.interrupts.pending_vector() {
            Some(vector) => acked.jump(vector),
            None => acked,
        }
    }

    /// The state after an opcode of the main table has run. Before, the
    /// program counter stands after the opcode; after, it stands at the
    /// instruction that follows. `None` where the table has no entry; the
    /// prefix of the extended table has none of its own.
    pub open spec fn execute(self, opcode: u8) -> Option<Arch> {
        match opcode {
            0x00 => Some(self),
            0x06 => Some(self.ld_reg_imm(Reg8::B)),
            0x0E => Some(self.ld_reg_imm(Reg8::C)),
            0x2E => Some(self.ld_reg_imm(Reg8::L)),
            0x3E => Some(self.ld_reg_imm(Reg8::A)),
            0x1A => Some(self.set8(Reg8::A, self.read(self.regs.de()))),
            0x22 => Some(self.store_and_step(true)),
            0x32 => Some(self.store_and_step(false)),
            0x47 => Some(self.ld_reg_reg(Reg8::B, Reg8::A)),
            0x57 => Some(self.ld_reg_reg(Reg8::D, Reg8::A)),
            0x79 => Some(self.ld_reg_reg(Reg8::A, Reg8::C)),
            0x7A => Some(self.ld_reg_reg(Reg8::A, Reg8::D)),
            0x7B => Some(self.ld_reg_reg(Reg8::A, Reg8::E)),
            0xE0 => Some(self.write(high_page(self.imm8()), self.regs.a).skip(1)),
            0xEA => Some(self.write(self.imm16(), self.regs.a).skip(2)),
            0x01 => Some(self.ld16_reg_imm(Reg16::BC)),
            0x11 => Some(self.ld16_reg_imm(Reg16::DE)),
            0x21 => Some(self.ld16_reg_imm(Reg16::HL)),
            0x31 => Some(self.ld16_reg_imm(Reg16::SP)),
            0x13 => Some(self.set16(Reg16::DE, self.regs.de().wrapping_add(1))),
            0x23 => Some(self.set16(Reg16::HL, self.regs.hl().wrapping_add(1))),
            0x05 => Some(self.dec8(Reg8::B)),
            0x15 => Some(self.dec8(Reg8::D)),
            0x0D => Some(self.dec8(Reg8::C)),
            0x3D => Some(self.dec8(Reg8::A)),
            0x18 => Some(self.jr(None)),
            0x20 => Some(self.jr(Some(Cond::NZ))),
            0x28 => Some(self.jr(Some(Cond::Z))),
            0xC3 => Some(self.jump(self.imm16())),
            0xC9 => Some(self.dropped().jump(self.top())),
            0xCD => Some(self.skip(2).pushed(self.skip(2).regs.pc).jump(self.imm16())),
            0xC1 => Some(self.pop(Reg16::BC)),
            0xF1 => Some(self.pop(Reg16::AF)),
            0xC5 => Some(self.pushed(self.regs.bc())),
            0xE5 => Some(self.pushed(self.regs.hl())),
            0xF5 => Some(self.pushed(self.regs.af())),
            0xFE => Some(self.with_regs(cp_flags(self.regs, self.imm8())).skip(1)),
            _ => None,
        }
    }

    /// The state after an opcode of the extended table has run, the program
    /// counter standing after the opcode before and after. `None` where
    /// the table has no entry.
    pub open spec fn execute_extended(self, opcode: u8) -> Option<Arch> {
        match opcode {
            0x10 => Some(self.rl8(Reg8::B)),
            0x11 => Some(self.rl8(Reg8::C)),
            0x6C => Some(self.with_regs(bit_flags(self.regs, 5, self.regs.h))),
            _ => None,
        }
    }
}

/// What an idle engine is about to do: the architectural state in which
/// what it has in flight ends. `None` where the opcode has no decode entry.
pub open spec fn outcome(cpu: Cpu, bus: BusView) -> Option<Arch> {
    let arch = Arch::of(cpu, bus);
    if cpu.ctx.int {
        Some(arch.enter_service_routine())
    } else if cpu.ctx.cb {
        None
    } else if cpu.ctx.opcode == 0xCB {
        arch.skip(1).execute_extended(arch.imm8())
    } else {
        arch.execute(cpu.ctx.opcode)
    }
}

/// The engine and the bus at the end of an instruction that leaves the
/// architectural state `arch`: the engine has fetched the opcode at the
/// program counter of `arch`.
pub open spec fn resumed(cpu: Cpu, arch: Arch) -> (Cpu, BusView) {
    ((Cpu { regs: arch.regs, interrupts: arch.interrupts, ..cpu }).fetch_spec(arch.bus), arch.bus)
}

/// Whether the engine, run from this idle state for the documented count
/// of cycles of what it has in flight, ends as the instruction says.
pub open spec fn refines(cpu: Cpu, bus: BusView) -> bool {
    let next = cpu.bus_read(bus, cpu.regs.pc);
    &&& cycles_of(cpu.ctx, next) is Some
    &&& outcome(cpu, bus) is Some
    &&& run(cpu, bus, cycles_of(cpu.ctx, next).unwrap()) == resumed(cpu, outcome(cpu, bus).unwrap())
}

proof fn lemma_refines_one(cpu: Cpu, bus: BusView)
    requires
        cpu.is_idle(),
        !cpu.ctx.int,
        !cpu.ctx.cb,
        cpu.ctx.opcode == 0x00 || cpu.ctx.opcode == 0x47 || cpu.ctx.opcode == 0x57 || cpu.ctx.opcode == 0x79 || cpu.ctx.opcode == 0x7A || cpu.ctx.opcode == 0x7B || cpu.ctx.opcode == 0x05 || cpu.ctx.opcode == 0x15 || cpu.ctx.opcode == 0x0D || cpu.ctx.opcode == 0x3D,
    ensures
        refines(cpu, bus),
{
    reveal_with_fuel(run, 2);
    lemma_pack_split(0, 0, 0);
    let op = cpu.ctx.opcode;
    if op == 0x00 {
        assert(refines(cpu, bus));
    }     else if op == 0x47 {
        assert(refines(cpu, bus));
    }     else if op == 0x57 {
        assert(refines(cpu, bus));
    }     else if op == 0x79 {
        assert(refines(cpu, bus));
    }     else if op == 0x7A {
        assert(refines(cpu, bus));
    }     else if op == 0x7B {
        assert(refines(cpu, bus));
    }     else if op == 0x05 {
        assert(refines(cpu, bus));
    }     else if op == 0x15 {
        assert(refines(cpu, bus));
    }     else if op == 0x0D {
        assert(refines(cpu, bus));
    }     else if op == 0x3D {
        assert(refines(cpu, bus));
    }
}

proof fn lemma_refines_two(cpu: Cpu, bus: BusView)
    requires
        cpu.is_idle(),
        !cpu.ctx.int,
        !cpu.ctx.cb,
        cpu.ctx.opcode == 0x06 || cpu.ctx.opcode == 0x0E || cpu.ctx.opcode == 0x2E || cpu.ctx.opcode == 0x3E || cpu.ctx.opcode == 0x1A || cpu.ctx.opcode == 0x22 || cpu.ctx.opcode == 0x32 || cpu.ctx.opcode == 0x13 || cpu.ctx.opcode == 0x23 || cpu.ctx.opcode == 0xFE,
    ensures
        refines(cpu, bus),
{
    reveal_with_fuel(run, 3);
    lemma_pack_split(0, 0, 0);
    let op = cpu.ctx.opcode;
    if op == 0x06 {
        assert(refines(cpu, bus));
    }     else if op == 0x0E {
        assert(refines(cpu, bus));
    }     else if op == 0x2E {
        assert(refines(cpu, bus));
    }     else if op == 0x3E {
        assert(refines(cpu, bus));
    }     else if op == 0x1A {
        assert(refines(cpu, bus));
    }     else if op == 0x22 {
        assert(refines(cpu, bus));
    }     else if op == 0x32 {
        assert(refines(cpu, bus));
    }     else if op == 0x13 {
        assert(refines(cpu, bus));
    }     else if op == 0x23 {
        assert(refines(cpu, bus));
    }     else if op == 0xFE {
        assert(refines(cpu, bus));
    }
}

proof fn lemma_refines_three(cpu: Cpu, bus: BusView)
    requires
        cpu.is_idle(),
        !cpu.ctx.int,
        !cpu.ctx.cb,
        cpu.ctx.opcode == 0xE0 || cpu.ctx.opcode == 0x01 || cpu.ctx.opcode == 0x11 || cpu.ctx.opcode == 0x21 || cpu.ctx.opcode == 0x31 || cpu.ctx.opcode == 0x18 || cpu.ctx.opcode == 0x20 || cpu.ctx.opcode == 0x28 || cpu.ctx.opcode == 0xC3 || cpu.ctx.opcode == 0xC1 || cpu.ctx.opcode == 0xF1,
    ensures
        refines(cpu, bus),
{
    reveal_with_fuel(run, 4);
    lemma_pack_split(0, 0, 0);
    let op = cpu.ctx.opcode;
    if op == 0xE0 {
        assert(refines(cpu, bus));
    }     else if op == 0x01 {
        assert(refines(cpu, bus));
    }     else if op == 0x11 {
        assert(refines(cpu, bus));
    }     else if op == 0x21 {
        assert(refines(cpu, bus));
    }     else if op == 0x31 {
        assert(refines(cpu, bus));
    }     else if op == 0x18 {
        assert(refines(cpu, bus));
    }     else if op == 0x20 {
        assert(refines(cpu, bus));
    }     else if op == 0x28 {
        assert(refines(cpu, bus));
    }     else if op == 0xC3 {
        assert(refines(cpu, bus));
    }     else if op == 0xC1 {
        assert(refines(cpu, bus));
    }     else if op == 0xF1 {
        assert(refines(cpu, bus));
    }
}

proof fn lemma_refines_direct_store(cpu: Cpu, bus: BusView)
    requires
        cpu.is_idle(),
        !cpu.ctx.int,
        !cpu.ctx.cb,
        cpu.ctx.opcode == 0xEA,
    ensures
        refines(cpu, bus),
{
    reveal_with_fuel(run, 5);
    lemma_pack_split(0, 0, 0);
}

proof fn lemma_refines_return(cpu: Cpu, bus: BusView)
    requires
        cpu.is_idle(),
        !cpu.ctx.int,
        !cpu.ctx.cb,
        cpu.ctx.opcode == 0xC9,
    ensures
        refines(cpu, bus),
{
    reveal_with_fuel(run, 5);
    lemma_pack_split(0, 0, 0);
}

proof fn lemma_refines_push(cpu: Cpu, bus: BusView)
    requires
        cpu.is_idle(),
        !cpu.ctx.int,
        !cpu.ctx.cb,
        cpu.ctx.opcode == 0xC5 || cpu.ctx.opcode == 0xE5 || cpu.ctx.opcode == 0xF5,
    ensures
        refines(cpu, bus),
{
    reveal_with_fuel(run, 5);
    lemma_pack_split(0, 0, 0);
    let op = cpu.ctx.opcode;
    if op == 0xC5 {
        assert(refines(cpu, bus));
    }     else if op == 0xE5 {
        assert(refines(cpu, bus));
    }     else if op == 0xF5 {
        assert(refines(cpu, bus));
    }
}

proof fn lemma_refines_four(cpu: Cpu, bus: BusView)
    requires
        cpu.is_idle(),
        !cpu.ctx.int,
        !cpu.ctx.cb,
        cpu.ctx.opcode == 0xEA || cpu.ctx.opcode == 0xC9 || cpu.ctx.opcode == 0xC5 || cpu.ctx.opcode == 0xE5
            || cpu.ctx.opcode == 0xF5,
    ensures
        refines(cpu, bus),
{
    if cpu.ctx.opcode == 0xEA {
        lemma_refines_direct_store(cpu, bus);
    } else if cpu.ctx.opcode == 0xC9 {
        lemma_refines_return(cpu, bus);
    } else {
        lemma_refines_push(cpu, bus);
    }
}

proof fn lemma_refines_six(cpu: Cpu, bus: BusView)
    requires
        cpu.is_idle(),
        !cpu.ctx.int,
        !cpu.ctx.cb,
        cpu.ctx.opcode == 0xCD,
    ensures
        refines(cpu, bus),
{
    reveal_with_fuel(run, 7);
    lemma_pack_split(0, 0, 0);
    let op = cpu.ctx.opcode;
    if op == 0xCD {
        assert(refines(cpu, bus));
    }
}

proof fn lemma_refines_extended(cpu: Cpu, bus: BusView)
    requires
        cpu.is_idle(),
        !cpu.ctx.int,
        !cpu.ctx.cb,
        cpu.ctx.opcode == 0xCB,
        Arch::of(cpu, bus).execute_extended(cpu.bus_read(bus, cpu.regs.pc)) is Some,
    ensures
        refines(cpu, bus),
{
    reveal_with_fuel(run, 3);
    let op = cpu.bus_read(bus, cpu.regs.pc);
    if op == 0x10 {
        assert(refines(cpu, bus));
    } else if op == 0x11 {
        assert(refines(cpu, bus));
    } else if op == 0x6C {
        assert(refines(cpu, bus));
    }
}

proof fn lemma_refines_entry(cpu: Cpu, bus: BusView)
    requires
        cpu.is_idle(),
        cpu.ctx.int,
    ensures
        refines(cpu, bus),
{
    reveal_with_fuel(run, 5);
    lemma_pack_split(0, 0, cpu.regs.pc);
}

/// The engine does what the instructions say: from an idle state with a
/// listed opcode or a latched interrupt, the documented count of cycles
/// ends with the architectural state that the instruction, or the entry
/// into the service routine, leaves, and with the opcode there fetched.
pub proof fn law_engine_refines_instructions(cpu: Cpu, bus: BusView)
    requires
        cpu.is_idle(),
        outcome(cpu, bus) is Some,
    ensures
        refines(cpu, bus),
{
    let op = cpu.ctx.opcode;
    if cpu.ctx.int {
        lemma_refines_entry(cpu, bus);
    } else if op == 0xCB {
        lemma_refines_extended(cpu, bus);
    } else if op == 0x00 || op == 0x47 || op == 0x57 || op == 0x79 || op == 0x7A || op == 0x7B || op == 0x05 || op == 0x15 || op == 0x0D || op == 0x3D {
        lemma_refines_one(cpu, bus);
    } else if op == 0x06 || op == 0x0E || op == 0x2E || op == 0x3E || op == 0x1A || op == 0x22 || op == 0x32 || op == 0x13 || op == 0x23 || op == 0xFE {
        lemma_refines_two(cpu, bus);
    } else if op == 0xE0 || op == 0x01 || op == 0x11 || op == 0x21 || op == 0x31 || op == 0x18 || op == 0x20 || op == 0x28 || op == 0xC3 || op == 0xC1 || op == 0xF1 {
        lemma_refines_three(cpu, bus);
    } else if op == 0xEA || op == 0xC9 || op == 0xC5 || op == 0xE5 || op == 0xF5 {
        lemma_refines_four(cpu, bus);
    } else {
        lemma_refines_six(cpu, bus);
    }
}

} // verus!
