//! What comes back after an instruction is undone by its counterpart:
//! increment and decrement, call and return, push and pop.

use vstd::prelude::*;
use crate::cpu::operand::{reg16_of, reg8_of, Reg16, Reg8};
use crate::cpu::timing::run;
use crate::cpu::{Access, Cpu, Phase};
use crate::peripherals::{region_of, BusView, Region};
use crate::registers::{high_byte, lemma_low_nibble, lemma_pack_split, low_byte, pack, Registers};

verus! {

/// The engine and the bus after `n` cycles of a push of `src`.
pub open spec fn run_push(cpu: Cpu, bus: BusView, src: Reg16, n: nat) -> (Cpu, BusView)
    decreases n,
{
    if n == 0 {
        (cpu, bus)
    } else {
        let (next, after) = cpu.push_spec(bus, src);
        run_push(next, after, src, (n - 1) as nat)
    }
}

/// The engine after `n` cycles of a pop into `dst`.
pub open spec fn run_pop(cpu: Cpu, bus: BusView, dst: Reg16, n: nat) -> Cpu
    decreases n,
{
    if n == 0 {
        cpu
    } else {
        run_pop(cpu.pop_spec(bus, dst), bus, dst, (n - 1) as nat)
    }
}

/// The two bytes below `sp` read back as the halves of `val`: the low byte
/// two below, the high byte one below.
pub open spec fn stack_holds(cpu: Cpu, bus: BusView, sp: u16, val: u16) -> bool {
    &&& cpu.bus_read(bus, sp.wrapping_sub(2)) == low_byte(val)
    &&& cpu.bus_read(bus, sp.wrapping_sub(1)) == high_byte(val)
}

/// Incrementing a register and then decrementing it, or the other way
/// round, gives the value back, each in one cycle. The flags afterwards are
/// those of the second instruction, so they tell the two orders apart: the
/// subtract flag, and the half-carry flag where the value was at a boundary
/// of its low four bits.
pub proof fn law_inc_dec_round_trip(cpu: Cpu, bus: BusView, r: Reg8)
    requires
        cpu.is_idle(),
    ensures
        ({
            let v = reg8_of(cpu.regs, r);
            let (up, bus1, r1) = cpu.inc_spec(bus, r);
            let (back, bus2, r2) = up.dec_spec(bus1, r);
            &&& r1 is Ok && r2 is Ok
            &&& up.is_idle() && back.is_idle()
            &&& bus2 == bus
            &&& reg8_of(up.regs, r) == v.wrapping_add(1)
            &&& reg8_of(back.regs, r) == v
            &&& back.regs.nf()
            &&& back.regs.zf() == (v == 0)
            &&& back.regs.hf() == (v % 16 == 15)
            &&& back.regs.cf() == cpu.regs.cf()
        }),
        ({
            let v = reg8_of(cpu.regs, r);
            let (down, bus1, r1) = cpu.dec_spec(bus, r);
            let (back, bus2, r2) = down.inc_spec(bus1, r);
            &&& r1 is Ok && r2 is Ok
            &&& down.is_idle() && back.is_idle()
            &&& bus2 == bus
            &&& reg8_of(down.regs, r) == v.wrapping_sub(1)
            &&& reg8_of(back.regs, r) == v
            &&& !back.regs.nf()
            &&& back.regs.zf() == (v == 0)
            &&& back.regs.hf() == (v % 16 == 0)
            &&& back.regs.cf() == cpu.regs.cf()
        }),
{
    let v = reg8_of(cpu.regs, r);
    let (up, bus1, r1) = cpu.inc_spec(bus, r);
    let (down, bus3, r3) = cpu.dec_spec(bus, r);
    crate::registers::lemma_flag_bits(cpu.regs.f);
    lemma_znh(cpu.regs, v.wrapping_add(1) == 0, false, v % 16 == 15);
    lemma_znh(cpu.regs, v.wrapping_sub(1) == 0, true, v % 16 == 0);
    lemma_znh(up.regs, v == 0, true, v % 16 == 15);
    lemma_znh(down.regs, v == 0, false, v % 16 == 0);
}

/// What setting the zero, subtract and half-carry flags does to each flag.
pub proof fn lemma_znh(regs: Registers, z: bool, n: bool, h: bool)
    ensures
        regs.with_znh(z, n, h).zf() == z,
        regs.with_znh(z, n, h).nf() == n,
        regs.with_znh(z, n, h).hf() == h,
        regs.with_znh(z, n, h).cf() == regs.cf(),
        regs.wf() ==> regs.with_znh(z, n, h).wf(),
{
    let f0 = regs.f;
    let f1 = crate::registers::with_flag(f0, crate::registers::FLAG_Z, z);
    let f2 = crate::registers::with_flag(f1, crate::registers::FLAG_N, n);
    crate::registers::lemma_flag_bits(f0);
    crate::registers::lemma_flag_bits(f1);
    crate::registers::lemma_flag_bits(f2);
}

/// What a call does in its six cycles: the target is read from the two
/// bytes after the opcode, low byte first; the address after them is
/// pushed, high byte first; and the opcode at the target is fetched.
pub proof fn law_call_effect(cpu: Cpu, bus: BusView)
    requires
        cpu.is_idle(),
        !cpu.ctx.int,
        !cpu.ctx.cb,
        cpu.ctx.opcode == 0xCD,
    ensures
        ({
            let (called, pushed) = run(cpu, bus, 6);
            let sp = cpu.regs.sp;
            let ret = cpu.regs.pc.wrapping_add(2);
            let target = pack(
                cpu.bus_read(bus, cpu.regs.pc.wrapping_add(1)),
                cpu.bus_read(bus, cpu.regs.pc),
            );
            let (c1, b1) = cpu.bus_write(bus, sp.wrapping_sub(1), high_byte(ret));
            let (c2, b2) = c1.bus_write(b1, sp.wrapping_sub(2), low_byte(ret));
            &&& called.is_idle()
            &&& pushed == b2
            &&& called.interrupts == c2.interrupts
            &&& called.regs == (Registers { pc: target.wrapping_add(1), sp: sp.wrapping_sub(2), ..cpu.regs })
            &&& called.ctx.opcode == c2.bus_read(b2, target)
            &&& called.ctx.int == c2.interrupts.actionable()
            &&& !called.ctx.cb
        }),
{
    reveal_with_fuel(run, 7);
    let (s1, b1, _) = cpu.cycle_spec(bus);
    let (s2, b2, _) = s1.cycle_spec(b1);
    let (s3, b3, _) = s2.cycle_spec(b2);
    let (s4, b4, _) = s3.cycle_spec(b3);
    let (s5, b5, _) = s4.cycle_spec(b4);
    let (s6, b6, _) = s5.cycle_spec(b5);
    assert(s1.access is Low && s1.phase == Phase::Start);
    assert(s2.access is Word && s2.phase == Phase::Start);
    assert(s3.phase is Store16 && s3.access == Access::Armed);
    assert(s4.phase is Store16 && s4.access is Low);
    assert(s5.phase == Phase::Settle && s5.access == Access::Idle);
    assert(run(cpu, bus, 6) == (s6, b6));
}

/// What a return does in its four cycles: the program counter is read
/// from the stack, low byte first, the stack pointer moves up by two, and
/// the opcode at the address read is fetched. The bus is left as it was.
pub proof fn law_ret_effect(cpu: Cpu, bus: BusView)
    requires
        cpu.is_idle(),
        !cpu.ctx.int,
        !cpu.ctx.cb,
        cpu.ctx.opcode == 0xC9,
    ensures
        ({
            let (back, after) = run(cpu, bus, 4);
            let sp = cpu.regs.sp;
            let addr = pack(cpu.bus_read(bus, sp.wrapping_add(1)), cpu.bus_read(bus, sp));
            &&& back.is_idle()
            &&& after == bus
            &&& back.interrupts == cpu.interrupts
            &&& back.regs == (Registers { pc: addr.wrapping_add(1), sp: sp.wrapping_add(2), ..cpu.regs })
            &&& back.ctx.opcode == cpu.bus_read(bus, addr)
        }),
{
    reveal_with_fuel(run, 5);
    let (t1, c1, _) = cpu.cycle_spec(bus);
    let (t2, c2, _) = t1.cycle_spec(c1);
    let (t3, c3, _) = t2.cycle_spec(c2);
    let (t4, c4, _) = t3.cycle_spec(c3);
    assert(t1.access is Low && t1.phase == Phase::Start);
    assert(t2.access is Word && t2.phase == Phase::Start);
    assert(t3.phase == Phase::Settle && t3.access == Access::Idle);
    assert(run(cpu, bus, 4) == (t4, c4));
}

/// A call that is followed at once by a return comes back to the
/// instruction after the call, with the stack pointer where it was. The
/// call takes six cycles and the return four. It is required that the
/// opcode at the target is a return, that no interrupt is latched when it
/// is fetched, and that the stack reads back what the call pushed.
pub proof fn law_call_ret_round_trip(cpu: Cpu, bus: BusView)
    requires
        cpu.is_idle(),
        !cpu.ctx.int,
        !cpu.ctx.cb,
        cpu.ctx.opcode == 0xCD,
        ({
            let (called, pushed) = run(cpu, bus, 6);
            &&& called.ctx.opcode == 0xC9
            &&& !called.ctx.int
            &&& stack_holds(called, pushed, cpu.regs.sp, cpu.regs.pc.wrapping_add(2))
        }),
    ensures
        ({
            let (called, pushed) = run(cpu, bus, 6);
            let (back, after) = run(called, pushed, 4);
            &&& called.is_idle()
            &&& called.regs.sp == cpu.regs.sp.wrapping_sub(2)
            &&& back.is_idle()
            &&& after == pushed
            &&& back.regs.sp == cpu.regs.sp
            &&& back.instruction_addr() == cpu.regs.pc.wrapping_add(2)
            &&& back.ctx.opcode == back.bus_read(after, cpu.regs.pc.wrapping_add(2))
        }),
{
    let (called, pushed) = run(cpu, bus, 6);
    law_call_effect(cpu, bus);
    law_ret_effect(called, pushed);
    lemma_pack_split(0, 0, cpu.regs.pc.wrapping_add(2));
}

/// A push of a register pair that is followed by a pop into the same pair
/// gives the pair its value back, with the stack pointer where it was. The
/// push takes four cycles and the pop three. It is required that the stack
/// reads back what the push wrote, and for `AF` that the low four bits of
/// `F` are zero.
pub proof fn law_push_pop_round_trip(cpu: Cpu, bus: BusView, r: Reg16)
    requires
        cpu.is_idle(),
        r == Reg16::AF ==> cpu.regs.wf(),
        ({
            let (pushed, after) = run_push(cpu, bus, r, 4);
            stack_holds(pushed, after, cpu.regs.sp, reg16_of(cpu.regs, r))
        }),
    ensures
        ({
            let (pushed, after) = run_push(cpu, bus, r, 4);
            let back = run_pop(pushed, after, r, 3);
            &&& pushed.is_idle()
            &&& r != Reg16::SP ==> pushed.regs.sp == cpu.regs.sp.wrapping_sub(2)
            &&& back.is_idle()
            &&& reg16_of(back.regs, r) == reg16_of(cpu.regs, r)
            &&& back.regs.sp == cpu.regs.sp
        }),
{
    reveal_with_fuel(run_push, 5);
    reveal_with_fuel(run_pop, 4);
    let v = reg16_of(cpu.regs, r);
    let (s1, b1) = cpu.push_spec(bus, r);
    let (s2, b2) = s1.push_spec(b1, r);
    let (s3, b3) = s2.push_spec(b2, r);
    let (s4, b4) = s3.push_spec(b3, r);
    assert(run_push(cpu, bus, r, 4) == (s4, b4));
    let t1 = s4.pop_spec(b4, r);
    let t2 = t1.pop_spec(b4, r);
    let t3 = t2.pop_spec(b4, r);
    assert(run_pop(s4, b4, r, 3) == t3);
    lemma_pack_split(0, 0, v);
    lemma_pack_split(cpu.regs.a, cpu.regs.f, v);
    lemma_pack_split(cpu.regs.b, cpu.regs.c, v);
    lemma_pack_split(cpu.regs.d, cpu.regs.e, v);
    lemma_pack_split(cpu.regs.h, cpu.regs.l, v);
    lemma_low_nibble(cpu.regs.f);
}

/// A stack in the fixed RAM reads back what is pushed on it: where the two
/// bytes below the stack pointer lie in the fixed RAM, writing the halves
/// of a word there, high byte first, leaves a bus on which they are read
/// back, and leaves the interrupt controller alone.
pub proof fn law_high_ram_stack_holds(cpu: Cpu, bus: BusView, val: u16)
    requires
        bus.wf(),
        region_of(cpu.regs.sp.wrapping_sub(1)) == Region::HighRam,
        region_of(cpu.regs.sp.wrapping_sub(2)) == Region::HighRam,
    ensures
        ({
            let sp = cpu.regs.sp;
            let (c1, b1) = cpu.bus_write(bus, sp.wrapping_sub(1), high_byte(val));
            let (c2, b2) = c1.bus_write(b1, sp.wrapping_sub(2), low_byte(val));
            &&& stack_holds(c2, b2, sp, val)
            &&& c2 == cpu
            &&& b2.wf()
        }),
{
}

/// With the stack in the fixed RAM, a call to a return comes back: where
/// the two bytes below the stack pointer lie in the fixed RAM, the opcode
/// at the target is a return that lies outside the fixed RAM and the
/// interrupt registers, and no interrupt is actionable, the ten cycles of
/// the call and the return end at the instruction after the call with the
/// stack pointer where it was.
pub proof fn law_call_ret_on_high_ram_stack(cpu: Cpu, bus: BusView)
    requires
        cpu.is_idle(),
        !cpu.ctx.int,
        !cpu.ctx.cb,
        cpu.ctx.opcode == 0xCD,
        bus.wf(),
        !cpu.interrupts.actionable(),
        region_of(cpu.regs.sp.wrapping_sub(1)) == Region::HighRam,
        region_of(cpu.regs.sp.wrapping_sub(2)) == Region::HighRam,
        ({
            let target = pack(
                cpu.bus_read(bus, cpu.regs.pc.wrapping_add(1)),
                cpu.bus_read(bus, cpu.regs.pc),
            );
            &&& region_of(target) != Region::HighRam
            &&& region_of(target) != Region::Interrupt
            &&& cpu.bus_read(bus, target) == 0xC9
        }),
    ensures
        ({
            let (called, pushed) = run(cpu, bus, 6);
            let (back, after) = run(called, pushed, 4);
            &&& back.is_idle()
            &&& back.regs.sp == cpu.regs.sp
            &&& back.instruction_addr() == cpu.regs.pc.wrapping_add(2)
            &&& back.regs == (Registers { pc: cpu.regs.pc.wrapping_add(3), ..cpu.regs })
            &&& back.interrupts == cpu.interrupts
            &&& after.wf()
        }),
{
    let ret = cpu.regs.pc.wrapping_add(2);
    law_call_effect(cpu, bus);
    law_high_ram_stack_holds(cpu, bus, ret);
    law_call_ret_round_trip(cpu, bus);
    let (called, pushed) = run(cpu, bus, 6);
    law_ret_effect(called, pushed);
    lemma_pack_split(0, 0, ret);
}

/// With the stack in the fixed RAM, a push of a register pair and a pop
/// into the same pair give the pair and the stack pointer back.
pub proof fn law_push_pop_on_high_ram_stack(cpu: Cpu, bus: BusView, r: Reg16)
    requires
        cpu.is_idle(),
        bus.wf(),
        r == Reg16::AF ==> cpu.regs.wf(),
        region_of(cpu.regs.sp.wrapping_sub(1)) == Region::HighRam,
        region_of(cpu.regs.sp.wrapping_sub(2)) == Region::HighRam,
    ensures
        ({
            let (pushed, after) = run_push(cpu, bus, r, 4);
            let back = run_pop(pushed, after, r, 3);
            &&& back.is_idle()
            &&& reg16_of(back.regs, r) == reg16_of(cpu.regs, r)
            &&& back.regs.sp == cpu.regs.sp
        }),
{
    reveal_with_fuel(run_push, 5);
    let v = reg16_of(cpu.regs, r);
    let (s1, b1) = cpu.push_spec(bus, r);
    let (s2, b2) = s1.push_spec(b1, r);
    let (s3, b3) = s2.push_spec(b2, r);
    let (s4, b4) = s3.push_spec(b3, r);
    assert(run_push(cpu, bus, r, 4) == (s4, b4));
    law_high_ram_stack_holds(cpu, bus, v);
    assert(stack_holds(s4, b4, cpu.regs.sp, v));
    law_push_pop_round_trip(cpu, bus, r);
}

} // verus!
