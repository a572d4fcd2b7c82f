//! What holds of the engine at every cycle.

use vstd::prelude::*;
use crate::cpu::operand::{Imm8, IO8};
use crate::cpu::timing::{extended_cycles, main_cycles};
use crate::cpu::{Cpu, Ctx};
use crate::error::CoreError;
use crate::peripherals::BusView;
use crate::registers::{lemma_flag_bits, with_flag, FLAG_C, FLAG_H, FLAG_N, FLAG_Z};

verus! {

/// Setting or clearing a flag leaves the low four bits of `F` zero where
/// they were zero.
pub proof fn lemma_flag_keeps_low_nibble(f: u8, on: bool)
    requires
        f & 0x0F == 0,
    ensures
        with_flag(f, FLAG_Z, on) & 0x0F == 0,
        with_flag(f, FLAG_N, on) & 0x0F == 0,
        with_flag(f, FLAG_H, on) & 0x0F == 0,
        with_flag(f, FLAG_C, on) & 0x0F == 0,
{
    lemma_flag_bits(f);
}

/// A fetch while the enable latch is off latches no interrupt, whatever is
/// pending; so no entry into a service routine starts before software
/// turns the latch on again.
pub proof fn law_no_interrupt_latched_while_disabled(cpu: Cpu, bus: BusView)
    requires
        !cpu.interrupts.ime,
    ensures
        !cpu.fetch_spec(bus).ctx.int,
        cpu.fetch_spec(bus).interrupts == cpu.interrupts,
{
}

/// A fetch leaves the engine idle and changes nothing but the program
/// counter, the cycle counter and what it latches.
pub proof fn law_fetch_leaves_idle(cpu: Cpu, bus: BusView)
    ensures
        cpu.fetch_spec(bus).is_idle(),
        cpu.fetch_spec(bus).instruction_addr() == cpu.regs.pc,
        cpu.fetch_spec(bus).regs.sp == cpu.regs.sp,
        cpu.fetch_spec(bus).regs.af() == cpu.regs.af(),
        cpu.fetch_spec(bus).regs.bc() == cpu.regs.bc(),
        cpu.fetch_spec(bus).regs.de() == cpu.regs.de(),
        cpu.fetch_spec(bus).regs.hl() == cpu.regs.hl(),
{
}

/// The cycle that ends the entry into a service routine leaves the enable
/// latch off and no interrupt latched: entries do not nest.
pub proof fn law_entry_does_not_nest(cpu: Cpu, bus: BusView)
    requires
        cpu.ctx.int,
        cpu.cycle_spec(bus).0.is_idle(),
    ensures
        !cpu.cycle_spec(bus).0.interrupts.ime,
        !cpu.cycle_spec(bus).0.ctx.int,
{
}

/// The facts about single bits of `F` that the proofs below lean on.
proof fn lemma_flag_facts()
    ensures
        forall|f: u8, on: bool| f & 0x0F == 0 ==> (#[trigger] with_flag(f, FLAG_Z, on)) & 0x0F == 0,
        forall|f: u8, on: bool| f & 0x0F == 0 ==> (#[trigger] with_flag(f, FLAG_N, on)) & 0x0F == 0,
        forall|f: u8, on: bool| f & 0x0F == 0 ==> (#[trigger] with_flag(f, FLAG_H, on)) & 0x0F == 0,
        forall|f: u8, on: bool| f & 0x0F == 0 ==> (#[trigger] with_flag(f, FLAG_C, on)) & 0x0F == 0,
        forall|f: u8| (#[trigger] (f & 0xF0)) & 0x0F == 0,
{
    assert forall|f: u8, on: bool| f & 0x0F == 0 implies (#[trigger] with_flag(f, FLAG_Z, on)) & 0x0F == 0 by {
        lemma_flag_keeps_low_nibble(f, on);
    }
    assert forall|f: u8, on: bool| f & 0x0F == 0 implies (#[trigger] with_flag(f, FLAG_N, on)) & 0x0F == 0 by {
        lemma_flag_keeps_low_nibble(f, on);
    }
    assert forall|f: u8, on: bool| f & 0x0F == 0 implies (#[trigger] with_flag(f, FLAG_H, on)) & 0x0F == 0 by {
        lemma_flag_keeps_low_nibble(f, on);
    }
    assert forall|f: u8, on: bool| f & 0x0F == 0 implies (#[trigger] with_flag(f, FLAG_C, on)) & 0x0F == 0 by {
        lemma_flag_keeps_low_nibble(f, on);
    }
    assert forall|f: u8| (#[trigger] (f & 0xF0)) & 0x0F == 0 by {
        lemma_flag_bits(f);
    }
}

/// What one cycle of a listed opcode keeps: it succeeds, and the low four
/// bits of `F` stay zero.
pub open spec fn cycle_is_sound(cpu: Cpu, bus: BusView) -> bool {
    &&& cpu.decode_spec(bus).2 is Ok
    &&& cpu.regs.wf() ==> cpu.decode_spec(bus).0.regs.wf()
}

/// One cycle of a load of a byte is sound, whatever state it starts in.
proof fn lemma_byte_loads(cpu: Cpu, bus: BusView)
    requires
        !cpu.ctx.cb,
        cpu.ctx.opcode == 0x06 || cpu.ctx.opcode == 0x0E || cpu.ctx.opcode == 0x1A || cpu.ctx.opcode == 0x22 || cpu.ctx.opcode == 0x32 || cpu.ctx.opcode == 0x2E || cpu.ctx.opcode == 0x3E || cpu.ctx.opcode == 0x47 || cpu.ctx.opcode == 0x57 || cpu.ctx.opcode == 0x79 || cpu.ctx.opcode == 0x7A || cpu.ctx.opcode == 0x7B || cpu.ctx.opcode == 0xE0 || cpu.ctx.opcode == 0xEA,
    ensures
        cycle_is_sound(cpu, bus),
{
    lemma_flag_facts();
    let op = cpu.ctx.opcode;
    if op == 0x06 {
        assert(cycle_is_sound(cpu, bus));
    }     else if op == 0x0E {
        assert(cycle_is_sound(cpu, bus));
    }     else if op == 0x1A {
        assert(cycle_is_sound(cpu, bus));
    }     else if op == 0x22 {
        assert(cycle_is_sound(cpu, bus));
    }     else if op == 0x32 {
        assert(cycle_is_sound(cpu, bus));
    }     else if op == 0x2E {
        assert(cycle_is_sound(cpu, bus));
    }     else if op == 0x3E {
        assert(cycle_is_sound(cpu, bus));
    }     else if op == 0x47 {
        assert(cycle_is_sound(cpu, bus));
    }     else if op == 0x57 {
        assert(cycle_is_sound(cpu, bus));
    }     else if op == 0x79 {
        assert(cycle_is_sound(cpu, bus));
    }     else if op == 0x7A {
        assert(cycle_is_sound(cpu, bus));
    }     else if op == 0x7B {
        assert(cycle_is_sound(cpu, bus));
    }     else if op == 0xE0 {
        assert(cycle_is_sound(cpu, bus));
    }     else if op == 0xEA {
        assert(cycle_is_sound(cpu, bus));
    }
}

/// One cycle of a load of a word, an increment of a word or a decrement of a byte is sound, whatever state it starts in.
proof fn lemma_word_loads_and_steps(cpu: Cpu, bus: BusView)
    requires
        !cpu.ctx.cb,
        cpu.ctx.opcode == 0x01 || cpu.ctx.opcode == 0x11 || cpu.ctx.opcode == 0x21 || cpu.ctx.opcode == 0x31 || cpu.ctx.opcode == 0x13 || cpu.ctx.opcode == 0x23 || cpu.ctx.opcode == 0x05 || cpu.ctx.opcode == 0x15 || cpu.ctx.opcode == 0x0D || cpu.ctx.opcode == 0x3D,
    ensures
        cycle_is_sound(cpu, bus),
{
    lemma_flag_facts();
    let op = cpu.ctx.opcode;
    if op == 0x01 {
        assert(cycle_is_sound(cpu, bus));
    }     else if op == 0x11 {
        assert(cycle_is_sound(cpu, bus));
    }     else if op == 0x21 {
        assert(cycle_is_sound(cpu, bus));
    }     else if op == 0x31 {
        assert(cycle_is_sound(cpu, bus));
    }     else if op == 0x13 {
        assert(cycle_is_sound(cpu, bus));
    }     else if op == 0x23 {
        assert(cycle_is_sound(cpu, bus));
    }     else if op == 0x05 {
        assert(cycle_is_sound(cpu, bus));
    }     else if op == 0x15 {
        assert(cycle_is_sound(cpu, bus));
    }     else if op == 0x0D {
        assert(cycle_is_sound(cpu, bus));
    }     else if op == 0x3D {
        assert(cycle_is_sound(cpu, bus));
    }
}

/// One cycle of a jump, a call, a return, a push, a pop, a comparison or a no-op is sound, whatever state it starts in.
proof fn lemma_jumps_and_stack(cpu: Cpu, bus: BusView)
    requires
        !cpu.ctx.cb,
        cpu.ctx.opcode == 0x00 || cpu.ctx.opcode == 0x18 || cpu.ctx.opcode == 0x20 || cpu.ctx.opcode == 0x28 || cpu.ctx.opcode == 0xC3 || cpu.ctx.opcode == 0xC9 || cpu.ctx.opcode == 0xCD || cpu.ctx.opcode == 0xC1 || cpu.ctx.opcode == 0xF1 || cpu.ctx.opcode == 0xC5 || cpu.ctx.opcode == 0xE5 || cpu.ctx.opcode == 0xF5 || cpu.ctx.opcode == 0xFE,
    ensures
        cycle_is_sound(cpu, bus),
{
    lemma_flag_facts();
    let op = cpu.ctx.opcode;
    if op == 0x00 {
        assert(cycle_is_sound(cpu, bus));
    }     else if op == 0x18 {
        assert(cycle_is_sound(cpu, bus));
    }     else if op == 0x20 {
        assert(cycle_is_sound(cpu, bus));
    }     else if op == 0x28 {
        assert(cycle_is_sound(cpu, bus));
    }     else if op == 0xC3 {
        assert(cycle_is_sound(cpu, bus));
    }     else if op == 0xC9 {
        assert(cycle_is_sound(cpu, bus));
    }     else if op == 0xCD {
        assert(cycle_is_sound(cpu, bus));
    }     else if op == 0xC1 {
        assert(cycle_is_sound(cpu, bus));
    }     else if op == 0xF1 {
        assert(cycle_is_sound(cpu, bus));
    }     else if op == 0xC5 {
        assert(cycle_is_sound(cpu, bus));
    }     else if op == 0xE5 {
        assert(cycle_is_sound(cpu, bus));
    }     else if op == 0xF5 {
        assert(cycle_is_sound(cpu, bus));
    }     else if op == 0xFE {
        assert(cycle_is_sound(cpu, bus));
    }
}

/// One cycle of an opcode of the extended table is sound, whatever state it
/// starts in.
proof fn lemma_extended(cpu: Cpu, bus: BusView)
    requires
        cpu.ctx.cb,
        extended_cycles(cpu.ctx.opcode) is Some,
    ensures
        cycle_is_sound(cpu, bus),
{
    lemma_flag_facts();
    let op = cpu.ctx.opcode;
    if op == 0x10 {
        assert(cycle_is_sound(cpu, bus));
    } else if op == 0x11 {
        assert(cycle_is_sound(cpu, bus));
    } else if op == 0x6C {
        assert(cycle_is_sound(cpu, bus));
    }
}

/// One cycle of the prefix of the extended table keeps the low four bits of
/// `F` zero, and succeeds unless the opcode that arrives has no entry.
proof fn lemma_prefix(cpu: Cpu, bus: BusView)
    requires
        !cpu.ctx.cb,
        cpu.ctx.opcode == 0xCB,
    ensures
        cpu.regs.wf() ==> cpu.decode_spec(bus).0.regs.wf(),
        cpu.decode_spec(bus).2 is Err ==> {
            let (next, after, r) = cpu.decode_spec(bus);
            &&& next.ctx.cb
            &&& extended_cycles(next.ctx.opcode) is None
            &&& next.regs == cpu.regs
            &&& next.interrupts == cpu.interrupts
            &&& after == bus
            &&& r == Err::<(), CoreError>(next.unimplemented())
        },
{
    let (read, r) = cpu.read8_spec(bus, Imm8);
    if r is Some {
        let arrived = Cpu { ctx: Ctx { opcode: r->0, cb: true, ..read.ctx }, ..read };
        if extended_cycles(arrived.ctx.opcode) is Some {
            lemma_extended(arrived, bus);
        }
    }
}

/// One cycle of a listed opcode succeeds and keeps the low four bits of `F`
/// zero, whatever state it starts in.
pub proof fn lemma_listed(cpu: Cpu, bus: BusView)
    requires
        !cpu.ctx.cb,
        main_cycles(cpu.ctx.opcode) is Some,
    ensures
        cycle_is_sound(cpu, bus),
{
    let op = cpu.ctx.opcode;
    if op == 0x06 || op == 0x0E || op == 0x1A || op == 0x22 || op == 0x32 || op == 0x2E || op == 0x3E || op == 0x47 || op == 0x57 || op == 0x79 || op == 0x7A || op == 0x7B || op == 0xE0 || op == 0xEA {
        lemma_byte_loads(cpu, bus);
    } else if op == 0x01 || op == 0x11 || op == 0x21 || op == 0x31 || op == 0x13 || op == 0x23 || op == 0x05 || op == 0x15 || op == 0x0D || op == 0x3D {
        lemma_word_loads_and_steps(cpu, bus);
    } else {
        lemma_jumps_and_stack(cpu, bus);
    }
}

/// A cycle fails only on an opcode without a decode entry. It then changes
/// nothing but the cycle counter and, where the opcode came after the
/// prefix of the extended table, what the prefix latches; and the next
/// cycle fails in the same way.
pub proof fn law_gap_is_fatal(cpu: Cpu, bus: BusView)
    requires
        cpu.cycle_spec(bus).2 is Err,
    ensures
        ({
            let (next, after, r) = cpu.cycle_spec(bus);
            let (again, still, r2) = next.cycle_spec(after);
            &&& !cpu.ctx.int
            &&& next.ctx.cb ==> extended_cycles(next.ctx.opcode) is None
            &&& !next.ctx.cb ==> main_cycles(next.ctx.opcode) is None && next.ctx.opcode != 0xCB
            &&& r == Err::<(), CoreError>(next.unimplemented())
            &&& after == bus
            &&& next.regs == cpu.regs
            &&& next.interrupts == cpu.interrupts
            &&& r2 == r
            &&& still == bus
            &&& again.regs == cpu.regs
            &&& again.ctx == next.ctx
        }),
{
    let start = cpu.counted();
    if start.ctx.cb {
        if extended_cycles(start.ctx.opcode) is Some {
            lemma_extended(start, bus);
        }
    } else if start.ctx.opcode == 0xCB {
        lemma_prefix(start, bus);
    } else if main_cycles(start.ctx.opcode) is Some {
        lemma_listed(start, bus);
    }
}

/// A cycle keeps the low four bits of `F` zero.
pub proof fn law_cycle_keeps_flags_well_formed(cpu: Cpu, bus: BusView)
    requires
        cpu.regs.wf(),
    ensures
        cpu.cycle_spec(bus).0.regs.wf(),
{
    let start = cpu.counted();
    if start.ctx.int {
    } else if start.ctx.cb {
        if extended_cycles(start.ctx.opcode) is Some {
            lemma_extended(start, bus);
        }
    } else if start.ctx.opcode == 0xCB {
        lemma_prefix(start, bus);
    } else if main_cycles(start.ctx.opcode) is Some {
        lemma_listed(start, bus);
    }
}

} // verus!
