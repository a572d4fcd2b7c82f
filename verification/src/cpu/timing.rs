//! How many machine cycles each instruction takes.
//!
//! The count of an instruction is one cycle, the one that fetches the next
//! opcode, plus what its operands cost and what the instruction itself
//! adds. It does not depend on what the operands hold: a conditional jump
//! takes as long when it is not taken as when it is.

use vstd::prelude::*;
use crate::cpu::operand::{Direct8, Imm16, Imm8, Indirect, Reg16, Reg8, IO16, IO8};
use crate::cpu::{Cpu, Ctx};
use crate::peripherals::BusView;

verus! {

/// Cycles of an idle cycle before a push plus its two writes.
pub const PUSH_CYCLES: u8 = 3;

/// Cycles of the two reads of a pop.
pub const POP_CYCLES: u8 = 2;

/// Cycles of the entry into an interrupt service routine.
pub const ISR_CYCLES: u8 = 4;

/// Cycles of a load of a byte from `src` to `dst`.
pub open spec fn ld_cycles<D: Copy, S: Copy>(dst: D, src: S) -> nat where Cpu: IO8<D> + IO8<S> {
    1 + <Cpu as IO8<S>>::read8_cost(src) + <Cpu as IO8<D>>::write8_cost(dst)
}

/// Cycles of a load of a word from `src` to `dst`.
pub open spec fn ld16_cycles<D: Copy, S: Copy>(dst: D, src: S) -> nat where Cpu: IO16<D> + IO16<S> {
    1 + <Cpu as IO16<S>>::read16_cost(src) + <Cpu as IO16<D>>::write16_cost(dst)
}

/// Cycles of an increment or decrement of a word: one more than a load of
/// the operand onto itself.
pub open spec fn step16_cycles<S: Copy>(operand: S) -> nat where Cpu: IO16<S> {
    1 + ld16_cycles(operand, operand)
}

/// Cycles of an absolute jump.
pub open spec fn jp_cycles() -> nat {
    1 + <Cpu as IO16<Imm16>>::read16_cost(Imm16)
}

/// Cycles of an instruction that reads a byte, works on it and writes it
/// back to the same operand.
pub open spec fn modify_cycles<S: Copy>(operand: S) -> nat where Cpu: IO8<S> {
    1 + <Cpu as IO8<S>>::read8_cost(operand) + <Cpu as IO8<S>>::write8_cost(operand)
}

/// Cycles of an instruction that only reads a byte.
pub open spec fn read_cycles<S: Copy>(operand: S) -> nat where Cpu: IO8<S> {
    1 + <Cpu as IO8<S>>::read8_cost(operand)
}

/// The cycles of an opcode of the main table, from the fetch that latched
/// it to the fetch that ends it; `None` where the table has no entry. The
/// prefix of the extended table is counted with the opcode that follows
/// it.
pub open spec fn main_cycles(opcode: u8) -> Option<nat> {
    match opcode {
        0x00 => Some(1),
        0x06 => Some(ld_cycles(Reg8::B, Imm8)),
        0x0E => Some(ld_cycles(Reg8::C, Imm8)),
        0x1A => Some(ld_cycles(Reg8::A, Indirect::DE)),
        0x22 => Some(ld_cycles(Indirect::HLI, Reg8::A)),
        0x32 => Some(ld_cycles(Indirect::HLD, Reg8::A)),
        0x2E => Some(ld_cycles(Reg8::L, Imm8)),
        0x3E => Some(ld_cycles(Reg8::A, Imm8)),
        0x47 => Some(ld_cycles(Reg8::B, Reg8::A)),
        0x57 => Some(ld_cycles(Reg8::D, Reg8::A)),
        0x79 => Some(ld_cycles(Reg8::A, Reg8::C)),
        0x7A => Some(ld_cycles(Reg8::A, Reg8::D)),
        0x7B => Some(ld_cycles(Reg8::A, Reg8::E)),
        0xE0 => Some(ld_cycles(Direct8::DFF, Reg8::A)),
        0xEA => Some(ld_cycles(Direct8::D, Reg8::A)),
        0x01 => Some(ld16_cycles(Reg16::BC, Imm16)),
        0x11 => Some(ld16_cycles(Reg16::DE, Imm16)),
        0x21 => Some(ld16_cycles(Reg16::HL, Imm16)),
        0x31 => Some(ld16_cycles(Reg16::SP, Imm16)),
        0x13 => Some(step16_cycles(Reg16::DE)),
        0x23 => Some(step16_cycles(Reg16::HL)),
        0x05 => Some(modify_cycles(Reg8::B)),
        0x15 => Some(modify_cycles(Reg8::D)),
        0x0D => Some(modify_cycles(Reg8::C)),
        0x3D => Some(modify_cycles(Reg8::A)),
        0x18 | 0x20 | 0x28 => Some(2 + <Cpu as IO8<Imm8>>::read8_cost(Imm8)),
        0xC3 => Some(jp_cycles()),
        0xC9 => Some(2 + POP_CYCLES as nat),
        0xCD => Some(1 + <Cpu as IO16<Imm16>>::read16_cost(Imm16) + PUSH_CYCLES as nat),
        0xC1 | 0xF1 => Some(1 + POP_CYCLES as nat),
        0xC5 | 0xE5 | 0xF5 => Some(1 + PUSH_CYCLES as nat),
        0xFE => Some(read_cycles(Imm8)),
        _ => None,
    }
}

/// The cycles of an opcode of the extended table, its prefix included;
/// `None` where the table has no entry.
pub open spec fn extended_cycles(opcode: u8) -> Option<nat> {
    match opcode {
        0x10 => Some(<Cpu as IO8<Imm8>>::read8_cost(Imm8) + modify_cycles(Reg8::B)),
        0x11 => Some(<Cpu as IO8<Imm8>>::read8_cost(Imm8) + modify_cycles(Reg8::C)),
        0x6C => Some(<Cpu as IO8<Imm8>>::read8_cost(Imm8) + read_cycles(Reg8::H)),
        _ => None,
    }
}

/// The cycles that the engine needs from an idle state to the next: those
/// of the entry into the service routine where an interrupt was latched,
/// else those of the opcode in flight, which for the prefix of the
/// extended table is the opcode that `next` holds. `None` where the opcode
/// has no decode entry.
pub open spec fn cycles_of(ctx: Ctx, next: u8) -> Option<nat> {
    if ctx.int {
        Some(ISR_CYCLES as nat)
    } else if ctx.cb {
        None
    } else if ctx.opcode == 0xCB {
        extended_cycles(next)
    } else {
        main_cycles(ctx.opcode)
    }
}

/// Whether the instruction in flight ends at exactly the `n`-th cycle from
/// this state: each of the `n` cycles succeeds, the engine is part-way
/// through an instruction after each but the last, and idle after the
/// last.
pub open spec fn completes_in(cpu: Cpu, bus: BusView, n: nat) -> bool
    decreases n,
{
    let (next, after, r) = cpu.cycle_spec(bus);
    if n == 0 {
        false
    } else if n == 1 {
        r is Ok && next.is_idle()
    } else {
        r is Ok && !next.is_idle() && completes_in(next, after, (n - 1) as nat)
    }
}

/// The engine and the bus after `n` cycles.
pub open spec fn run(cpu: Cpu, bus: BusView, n: nat) -> (Cpu, BusView)
    decreases n,
{
    if n == 0 {
        (cpu, bus)
    } else {
        let (next, after, r) = cpu.cycle_spec(bus);
        run(next, after, (n - 1) as nat)
    }
}

/// The documented count of cycles of an opcode: for `cb` false an opcode
/// of the main table, for `cb` true one of the extended table with its
/// prefix counted in. `None` where the table has no entry, and for the
/// prefix itself, whose count is that of the opcode after it.
pub fn documented_cycles(opcode: u8, cb: bool) -> (n: Option<u8>)
    ensures
        cb ==> n.is_some() == extended_cycles(opcode).is_some(),
        cb && n.is_some() ==> n.unwrap() as nat == extended_cycles(opcode).unwrap(),
        !cb && opcode != 0xCB ==> n.is_some() == main_cycles(opcode).is_some(),
        !cb && opcode != 0xCB && n.is_some() ==> n.unwrap() as nat == main_cycles(opcode).unwrap(),
        !cb && opcode == 0xCB ==> n.is_none(),
{
    if cb {
        match opcode {
            0x10 | 0x11 | 0x6C => Some(2),
            _ => None,
        }
    } else {
        match opcode {
            0x00 | 0x47 | 0x57 | 0x79 | 0x7A | 0x7B | 0x05 | 0x15 | 0x0D | 0x3D => Some(1),
            0x06 | 0x0E | 0x2E | 0x3E | 0x1A | 0x22 | 0x32 | 0x13 | 0x23 | 0xFE => Some(2),
            0xE0 | 0x01 | 0x11 | 0x21 | 0x31 | 0x18 | 0x20 | 0x28 | 0xC3 | 0xC1 | 0xF1 => Some(3),
            0xEA | 0xC9 | 0xC5 | 0xE5 | 0xF5 => Some(4),
            0xCD => Some(6),
            _ => None,
        }
    }
}

proof fn lemma_one_cycle(cpu: Cpu, bus: BusView)
    requires
        cpu.is_idle(),
        !cpu.ctx.int,
        !cpu.ctx.cb,
        main_cycles(cpu.ctx.opcode) == Some(1nat),
    ensures
        completes_in(cpu, bus, 1),
{
    reveal_with_fuel(completes_in, 2);
}

proof fn lemma_two_cycles(cpu: Cpu, bus: BusView)
    requires
        cpu.is_idle(),
        !cpu.ctx.int,
        !cpu.ctx.cb,
        main_cycles(cpu.ctx.opcode) == Some(2nat),
    ensures
        completes_in(cpu, bus, 2),
{
    reveal_with_fuel(completes_in, 3);
    let op = cpu.ctx.opcode;
    if op == 0x06 {
        assert(completes_in(cpu, bus, 2));
    }     else if op == 0x0E {
        assert(completes_in(cpu, bus, 2));
    }     else if op == 0x2E {
        assert(completes_in(cpu, bus, 2));
    }     else if op == 0x3E {
        assert(completes_in(cpu, bus, 2));
    }     else if op == 0x1A {
        assert(completes_in(cpu, bus, 2));
    }     else if op == 0x22 {
        assert(completes_in(cpu, bus, 2));
    }     else if op == 0x32 {
        assert(completes_in(cpu, bus, 2));
    }     else if op == 0x13 {
        assert(completes_in(cpu, bus, 2));
    }     else if op == 0x23 {
        assert(completes_in(cpu, bus, 2));
    }     else if op == 0xFE {
        assert(completes_in(cpu, bus, 2));
    }
}

proof fn lemma_three_cycles(cpu: Cpu, bus: BusView)
    requires
        cpu.is_idle(),
        !cpu.ctx.int,
        !cpu.ctx.cb,
        main_cycles(cpu.ctx.opcode) == Some(3nat),
    ensures
        completes_in(cpu, bus, 3),
{
    reveal_with_fuel(completes_in, 4);
    let op = cpu.ctx.opcode;
    if op == 0xE0 {
        assert(completes_in(cpu, bus, 3));
    }     else if op == 0x01 {
        assert(completes_in(cpu, bus, 3));
    }     else if op == 0x11 {
        assert(completes_in(cpu, bus, 3));
    }     else if op == 0x21 {
        assert(completes_in(cpu, bus, 3));
    }     else if op == 0x31 {
        assert(completes_in(cpu, bus, 3));
    }     else if op == 0x18 {
        assert(completes_in(cpu, bus, 3));
    }     else if op == 0x20 {
        assert(completes_in(cpu, bus, 3));
    }     else if op == 0x28 {
        assert(completes_in(cpu, bus, 3));
    }     else if op == 0xC3 {
        assert(completes_in(cpu, bus, 3));
    }     else if op == 0xC1 {
        assert(completes_in(cpu, bus, 3));
    }     else if op == 0xF1 {
        assert(completes_in(cpu, bus, 3));
    }
}

proof fn lemma_four_cycles(cpu: Cpu, bus: BusView)
    requires
        cpu.is_idle(),
        !cpu.ctx.int,
        !cpu.ctx.cb,
        main_cycles(cpu.ctx.opcode) == Some(4nat),
    ensures
        completes_in(cpu, bus, 4),
{
    reveal_with_fuel(completes_in, 5);
    let op = cpu.ctx.opcode;
    if op == 0xEA {
        assert(completes_in(cpu, bus, 4));
    }     else if op == 0xC9 {
        assert(completes_in(cpu, bus, 4));
    }     else if op == 0xC5 {
        assert(completes_in(cpu, bus, 4));
    }     else if op == 0xE5 {
        assert(completes_in(cpu, bus, 4));
    }     else if op == 0xF5 {
        assert(completes_in(cpu, bus, 4));
    }
}

proof fn lemma_six_cycles(cpu: Cpu, bus: BusView)
    requires
        cpu.is_idle(),
        !cpu.ctx.int,
        !cpu.ctx.cb,
        main_cycles(cpu.ctx.opcode) == Some(6nat),
    ensures
        completes_in(cpu, bus, 6),
{
    reveal_with_fuel(completes_in, 7);
}

proof fn lemma_extended_cycles(cpu: Cpu, bus: BusView)
    requires
        cpu.is_idle(),
        !cpu.ctx.int,
        !cpu.ctx.cb,
        cpu.ctx.opcode == 0xCB,
        extended_cycles(cpu.bus_read(bus, cpu.regs.pc)) is Some,
    ensures
        completes_in(cpu, bus, 2),
{
    reveal_with_fuel(completes_in, 3);
}

proof fn lemma_isr_cycles(cpu: Cpu, bus: BusView)
    requires
        cpu.is_idle(),
        cpu.ctx.int,
    ensures
        completes_in(cpu, bus, 4),
{
    reveal_with_fuel(completes_in, 5);
}

/// From an idle state the engine is idle again after exactly the
/// documented count of cycles of what it has in flight, and at no cycle
/// before, whatever the registers and the bus hold.
pub proof fn law_cycle_count(cpu: Cpu, bus: BusView)
    requires
        cpu.is_idle(),
        cycles_of(cpu.ctx, cpu.bus_read(bus, cpu.regs.pc)) is Some,
    ensures
        completes_in(cpu, bus, cycles_of(cpu.ctx, cpu.bus_read(bus, cpu.regs.pc)).unwrap()),
{
    let n = cycles_of(cpu.ctx, cpu.bus_read(bus, cpu.regs.pc)).unwrap();
    if cpu.ctx.int {
        lemma_isr_cycles(cpu, bus);
    } else if cpu.ctx.opcode == 0xCB {
        lemma_extended_cycles(cpu, bus);
    } else if n == 1 {
        lemma_one_cycle(cpu, bus);
    } else if n == 2 {
        lemma_two_cycles(cpu, bus);
    } else if n == 3 {
        lemma_three_cycles(cpu, bus);
    } else if n == 4 {
        lemma_four_cycles(cpu, bus);
    } else {
        lemma_six_cycles(cpu, bus);
    }
}

} // verus!
