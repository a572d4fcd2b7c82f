use gb_core::bootrom::Bootrom;
use gb_core::cartridge::Cartridge;
use gb_core::cpu::interrupts::Interrupts;
use gb_core::cpu::timing::documented_cycles;
use gb_core::cpu::{Access, Cpu, Ctx, Phase};
use gb_core::error::CoreError;
use gb_core::peripherals::Peripherals;

fn bus_with(program: &[(u16, &[u8])]) -> Peripherals {
    let mut rom = vec![0u8; 0x8000];
    for (addr, bytes) in program {
        for (i, byte) in bytes.iter().enumerate() {
            rom[*addr as usize + i] = *byte;
        }
    }
    let mut bus = Peripherals::new(Bootrom::new(Vec::new()), Cartridge::new(rom).unwrap());
    let mut ints = Interrupts::default();
    bus.write(&mut ints, 0xFF50, 1);
    bus
}

fn start_at(bus: &Peripherals, pc: u16) -> Cpu {
    let mut cpu = Cpu::new();
    cpu.regs.pc = pc;
    cpu.regs.sp = 0xFFFE;
    cpu.fetch(bus);
    cpu
}

fn run_instruction(cpu: &mut Cpu, bus: &mut Peripherals) -> usize {
    let mut n = 0;
    loop {
        cpu.emulate_cycle(bus).unwrap();
        n += 1;
        if cpu.is_idle() {
            return n;
        }
        assert!(n < 16);
    }
}

#[test]
fn new_engine_is_idle_with_a_no_op_in_flight() {
    let cpu = Cpu::new();
    assert!(cpu.is_idle());
    assert_eq!(cpu.ctx, Ctx { opcode: 0x00, cb: false, int: false });
    assert_eq!(cpu.phase, Phase::Start);
    assert_eq!(cpu.access, Access::Idle);
    assert_eq!(cpu.regs.pc, 0);
    assert_eq!(cpu.regs.sp, 0);
    assert_eq!(cpu.interrupts, Interrupts::default());
    assert_eq!(cpu, Cpu::default());
}

#[test]
fn first_cycle_fetches_from_address_zero() {
    let mut bus = bus_with(&[(0x0000, &[0x3E, 0x42])]);
    let mut cpu = Cpu::new();
    assert_eq!(cpu.emulate_cycle(&mut bus), Ok(()));
    assert!(cpu.is_idle());
    assert_eq!(cpu.ctx.opcode, 0x3E);
    assert_eq!(cpu.regs.pc, 0x0001);
    assert_eq!(cpu.instruction_addr(), 0x0000);
    assert_eq!(run_instruction(&mut cpu, &mut bus), 2);
    assert_eq!(cpu.regs.a, 0x42);
}

#[test]
fn fetch_latches_opcode_and_advances() {
    let bus = bus_with(&[(0x0150, &[0xC3])]);
    let mut cpu = Cpu::new();
    cpu.regs.pc = 0x0150;
    cpu.ctx.cb = true;
    cpu.phase = Phase::Settle;
    cpu.access = Access::Written;
    cpu.cycle = 9;
    cpu.fetch(&bus);
    assert_eq!(cpu.ctx, Ctx { opcode: 0xC3, cb: false, int: false });
    assert_eq!(cpu.regs.pc, 0x0151);
    assert_eq!(cpu.instruction_addr(), 0x0150);
    assert_eq!(cpu.cycle, 0);
    assert!(cpu.is_idle());
}

#[test]
fn fetch_wraps_the_program_counter() {
    let bus = bus_with(&[]);
    let mut cpu = Cpu::new();
    cpu.regs.pc = 0xFFFF;
    cpu.interrupts.int_enables = 0x18;
    cpu.fetch(&bus);
    assert_eq!(cpu.ctx.opcode, 0x18);
    assert_eq!(cpu.regs.pc, 0x0000);
    assert_eq!(cpu.instruction_addr(), 0xFFFF);
}

#[test]
fn fetch_latches_an_actionable_interrupt() {
    let bus = bus_with(&[]);
    let mut cpu = Cpu::new();
    cpu.interrupts.int_flags = 0x04;
    cpu.interrupts.int_enables = 0x04;
    cpu.fetch(&bus);
    assert!(!cpu.ctx.int);
    cpu.interrupts.ime = true;
    cpu.fetch(&bus);
    assert!(cpu.ctx.int);
    cpu.interrupts.int_enables = 0x00;
    cpu.fetch(&bus);
    assert!(!cpu.ctx.int);
}

#[test]
fn unknown_opcode_is_reported_with_its_place() {
    let mut bus = bus_with(&[(0x0150, &[0xD3])]);
    let mut cpu = start_at(&bus, 0x0150);
    let expected = Err(CoreError::UnimplementedOpcode { opcode: 0xD3, cb: false, pc: 0x0151 });
    assert_eq!(cpu.emulate_cycle(&mut bus), expected);
    assert_eq!(cpu.emulate_cycle(&mut bus), expected);
    assert_eq!(cpu.regs.pc, 0x0151);
    assert_eq!(cpu.ctx.opcode, 0xD3);
    assert!(cpu.is_idle());
    assert_eq!(cpu.decode(&mut bus), expected);
}

#[test]
fn unknown_extended_opcode_is_reported_with_its_table() {
    let mut bus = bus_with(&[(0x0150, &[0xCB, 0x37])]);
    let mut cpu = start_at(&bus, 0x0150);
    assert_eq!(cpu.emulate_cycle(&mut bus), Ok(()));
    let expected = Err(CoreError::UnimplementedOpcode { opcode: 0x37, cb: true, pc: 0x0152 });
    assert_eq!(cpu.emulate_cycle(&mut bus), expected);
    assert_eq!(cpu.ctx, Ctx { opcode: 0x37, cb: true, int: false });
    assert_eq!(cpu.emulate_cycle(&mut bus), expected);
    assert_eq!(cpu.cb_decode(&mut bus), expected);
}

#[test]
fn every_unlisted_opcode_fails_and_every_listed_one_runs() {
    for opcode in 0..=255u8 {
        let mut bus = bus_with(&[(0x0150, &[opcode, 0x10, 0x02])]);
        let mut cpu = start_at(&bus, 0x0150);
        let outcome = cpu.emulate_cycle(&mut bus);
        match documented_cycles(opcode, false) {
            Some(_) => assert_eq!(outcome, Ok(())),
            None => {
                if opcode == 0xCB {
                    assert_eq!(outcome, Ok(()));
                } else {
                    assert_eq!(
                        outcome,
                        Err(CoreError::UnimplementedOpcode { opcode, cb: false, pc: 0x0151 })
                    );
                }
            },
        }
    }
}

#[test]
fn every_listed_opcode_takes_its_documented_cycles() {
    let mut listed = 0;
    for opcode in 0..=255u8 {
        if let Some(expected) = documented_cycles(opcode, false) {
            for flags in [0x00u8, 0x80, 0x10, 0xF0] {
                let mut bus = bus_with(&[(0x0150, &[opcode, 0x10, 0x02])]);
                let mut cpu = start_at(&bus, 0x0150);
                cpu.regs.f = flags;
                cpu.regs.write_hl(0xFF90);
                cpu.regs.write_de(0xFF91);
                assert_eq!(run_instruction(&mut cpu, &mut bus), expected as usize, "opcode {:02x}", opcode);
            }
            listed += 1;
        }
    }
    assert_eq!(listed, 37);
}

#[test]
fn every_listed_extended_opcode_takes_its_documented_cycles() {
    let mut listed = 0;
    for opcode in 0..=255u8 {
        if let Some(expected) = documented_cycles(opcode, true) {
            let mut bus = bus_with(&[(0x0150, &[0xCB, opcode])]);
            let mut cpu = start_at(&bus, 0x0150);
            assert_eq!(run_instruction(&mut cpu, &mut bus), expected as usize);
            assert_eq!(cpu.regs.pc, 0x0153);
            listed += 1;
        }
    }
    assert_eq!(listed, 3);
    assert_eq!(documented_cycles(0xCB, false), None);
}

#[test]
fn documented_cycle_counts() {
    assert_eq!(documented_cycles(0x00, false), Some(1));
    assert_eq!(documented_cycles(0x47, false), Some(1));
    assert_eq!(documented_cycles(0x3D, false), Some(1));
    assert_eq!(documented_cycles(0x3E, false), Some(2));
    assert_eq!(documented_cycles(0x1A, false), Some(2));
    assert_eq!(documented_cycles(0x22, false), Some(2));
    assert_eq!(documented_cycles(0x23, false), Some(2));
    assert_eq!(documented_cycles(0xFE, false), Some(2));
    assert_eq!(documented_cycles(0xE0, false), Some(3));
    assert_eq!(documented_cycles(0x21, false), Some(3));
    assert_eq!(documented_cycles(0x18, false), Some(3));
    assert_eq!(documented_cycles(0x20, false), Some(3));
    assert_eq!(documented_cycles(0x28, false), Some(3));
    assert_eq!(documented_cycles(0xC3, false), Some(3));
    assert_eq!(documented_cycles(0xC1, false), Some(3));
    assert_eq!(documented_cycles(0xEA, false), Some(4));
    assert_eq!(documented_cycles(0xC9, false), Some(4));
    assert_eq!(documented_cycles(0xC5, false), Some(4));
    assert_eq!(documented_cycles(0xCD, false), Some(6));
    assert_eq!(documented_cycles(0xD5, false), None);
    assert_eq!(documented_cycles(0x10, true), Some(2));
    assert_eq!(documented_cycles(0x11, true), Some(2));
    assert_eq!(documented_cycles(0x6C, true), Some(2));
    assert_eq!(documented_cycles(0x00, true), None);
}

#[test]
fn conditional_jump_takes_the_same_cycles_either_way() {
    for (opcode, flags_taken, flags_not) in [(0x20u8, 0x00u8, 0x80u8), (0x28, 0x80, 0x00)] {
        let mut bus = bus_with(&[(0x0150, &[opcode, 0x05])]);
        let mut taken = start_at(&bus, 0x0150);
        taken.regs.f = flags_taken;
        let n_taken = run_instruction(&mut taken, &mut bus);
        let mut not_taken = start_at(&bus, 0x0150);
        not_taken.regs.f = flags_not;
        let n_not = run_instruction(&mut not_taken, &mut bus);
        assert_eq!(n_taken, 3);
        assert_eq!(n_not, 3);
        assert_eq!(taken.instruction_addr(), 0x0157);
        assert_eq!(not_taken.instruction_addr(), 0x0152);
    }
}

#[test]
fn call_then_return_comes_back_after_the_call() {
    let mut bus = bus_with(&[(0x0150, &[0xCD, 0x00, 0x02, 0x3E]), (0x0200, &[0xC9])]);
    let mut cpu = Cpu::new();
    cpu.regs.pc = 0x0150;
    cpu.regs.sp = 0xFFFE;
    cpu.fetch(&bus);
    assert_eq!(cpu.ctx.opcode, 0xCD);
    assert_eq!(run_instruction(&mut cpu, &mut bus), 6);
    assert_eq!(cpu.ctx.opcode, 0xC9);
    assert_eq!(cpu.instruction_addr(), 0x0200);
    assert_eq!(cpu.regs.sp, 0xFFFC);
    assert_eq!(bus.read(&cpu.interrupts, 0xFFFD), 0x01);
    assert_eq!(bus.read(&cpu.interrupts, 0xFFFC), 0x53);
    for _ in 0..3 {
        assert_eq!(cpu.emulate_cycle(&mut bus), Ok(()));
        assert!(!cpu.is_idle());
    }
    assert_eq!(cpu.regs.pc, 0x0153);
    assert_eq!(cpu.regs.sp, 0xFFFE);
    assert_eq!(cpu.emulate_cycle(&mut bus), Ok(()));
    assert!(cpu.is_idle());
    assert_eq!(cpu.instruction_addr(), 0x0153);
    assert_eq!(cpu.ctx.opcode, 0x3E);
    assert_eq!(cpu.regs.sp, 0xFFFE);
}

#[test]
fn interrupt_entry_runs_in_place_of_the_opcode() {
    let mut bus = bus_with(&[(0x0040, &[0xC9]), (0x0150, &[0x3E, 0x05])]);
    let mut cpu = Cpu::new();
    cpu.regs.pc = 0x0150;
    cpu.regs.sp = 0xFFFE;
    cpu.interrupts.int_enables = 0x01;
    cpu.interrupts.int_flags = 0x01;
    cpu.interrupts.ime = true;
    cpu.fetch(&bus);
    assert!(cpu.ctx.int);
    assert_eq!(cpu.ctx.opcode, 0x3E);
    for _ in 0..3 {
        assert_eq!(cpu.emulate_cycle(&mut bus), Ok(()));
        assert!(!cpu.is_idle());
        assert!(cpu.interrupts.ime);
        assert_eq!(cpu.interrupts.int_flags, 0x01);
    }
    assert_eq!(cpu.regs.sp, 0xFFFC);
    assert_eq!(cpu.emulate_cycle(&mut bus), Ok(()));
    assert!(cpu.is_idle());
    assert_eq!(cpu.instruction_addr(), 0x0040);
    assert_eq!(cpu.regs.pc, 0x0041);
    assert_eq!(cpu.ctx, Ctx { opcode: 0xC9, cb: false, int: false });
    assert!(!cpu.interrupts.ime);
    assert_eq!(cpu.interrupts.int_flags, 0x00);
    assert_eq!(cpu.interrupts.int_enables, 0x01);
    assert_eq!(cpu.regs.a, 0x00);
    assert_eq!(bus.read(&cpu.interrupts, 0xFFFD), 0x01);
    assert_eq!(bus.read(&cpu.interrupts, 0xFFFC), 0x51);
}

#[test]
fn interrupt_entry_uses_the_vector_of_each_source() {
    for (bit, vector) in [(0x01u8, 0x0040u16), (0x02, 0x0048), (0x04, 0x0050), (0x08, 0x0058), (0x10, 0x0060)] {
        let mut bus = bus_with(&[(0x0150, &[0x00])]);
        let mut cpu = Cpu::new();
        cpu.regs.pc = 0x0150;
        cpu.regs.sp = 0xFFFE;
        cpu.interrupts.int_enables = 0x1F;
        cpu.interrupts.int_flags = bit | 0x10;
        cpu.interrupts.ime = true;
        cpu.fetch(&bus);
        assert_eq!(run_instruction(&mut cpu, &mut bus), 4);
        assert_eq!(cpu.instruction_addr(), vector);
        assert_eq!(cpu.interrupts.int_flags, (bit | 0x10) & !bit);
        assert!(!cpu.interrupts.ime);
        assert!(!cpu.ctx.int);
    }
}

#[test]
fn interrupt_entry_without_a_source_left_keeps_the_program_counter() {
    let mut bus = bus_with(&[(0x0150, &[0x00, 0x47])]);
    let mut cpu = Cpu::new();
    cpu.regs.pc = 0x0150;
    cpu.regs.sp = 0xFFFE;
    cpu.interrupts.int_enables = 0x01;
    cpu.interrupts.int_flags = 0x01;
    cpu.interrupts.ime = true;
    cpu.fetch(&bus);
    cpu.interrupts.int_flags = 0x00;
    assert_eq!(run_instruction(&mut cpu, &mut bus), 4);
    assert_eq!(cpu.instruction_addr(), 0x0151);
    assert_eq!(cpu.ctx.opcode, 0x47);
    assert!(!cpu.interrupts.ime);
    assert_eq!(cpu.regs.sp, 0xFFFC);
}

#[test]
fn no_interrupt_is_latched_while_the_latch_is_off() {
    let mut bus = bus_with(&[(0x0150, &[0x00, 0x00, 0x00])]);
    let mut cpu = start_at(&bus, 0x0150);
    cpu.interrupts.int_enables = 0x1F;
    cpu.interrupts.int_flags = 0x1F;
    for _ in 0..3 {
        assert_eq!(run_instruction(&mut cpu, &mut bus), 1);
        assert!(!cpu.ctx.int);
    }
    assert_eq!(cpu.interrupts.int_flags, 0x1F);
}

#[test]
fn load_then_compare_equal_sets_zero_and_subtract() {
    let mut bus = bus_with(&[(0x0150, &[0x3E, 0x05, 0xFE, 0x05])]);
    let mut cpu = start_at(&bus, 0x0150);
    assert_eq!(run_instruction(&mut cpu, &mut bus), 2);
    assert_eq!(cpu.regs.a, 0x05);
    assert_eq!(cpu.ctx.opcode, 0xFE);
    assert_eq!(run_instruction(&mut cpu, &mut bus), 2);
    assert!(cpu.regs.zf());
    assert!(cpu.regs.nf());
    assert!(!cpu.regs.cf());
    assert!(!cpu.regs.hf());
    assert_eq!(cpu.regs.a, 0x05);
    assert_eq!(cpu.instruction_addr(), 0x0154);
}

#[test]
fn two_engines_do_not_share_progress() {
    let mut bus_a = bus_with(&[(0x0150, &[0xCD, 0x00, 0x02])]);
    let mut bus_b = bus_with(&[(0x0150, &[0x21, 0x34, 0x12])]);
    let mut a = start_at(&bus_a, 0x0150);
    let mut b = start_at(&bus_b, 0x0150);
    a.emulate_cycle(&mut bus_a).unwrap();
    b.emulate_cycle(&mut bus_b).unwrap();
    a.emulate_cycle(&mut bus_a).unwrap();
    b.emulate_cycle(&mut bus_b).unwrap();
    b.emulate_cycle(&mut bus_b).unwrap();
    assert!(b.is_idle());
    assert_eq!(b.regs.hl(), 0x1234);
    assert!(!a.is_idle());
    for _ in 0..4 {
        a.emulate_cycle(&mut bus_a).unwrap();
    }
    assert!(a.is_idle());
    assert_eq!(a.instruction_addr(), 0x0200);
}

#[test]
fn cycle_counter_counts_and_resets_at_fetch() {
    let mut bus = bus_with(&[(0x0150, &[0xCD, 0x00, 0x02])]);
    let mut cpu = start_at(&bus, 0x0150);
    for n in 1..=5u8 {
        cpu.emulate_cycle(&mut bus).unwrap();
        assert_eq!(cpu.cycle, n);
    }
    cpu.emulate_cycle(&mut bus).unwrap();
    assert_eq!(cpu.cycle, 0);
}

#[test]
fn low_nibble_of_f_stays_zero_through_a_program() {
    let program: &[u8] = &[
        0x3E, 0xFF, 0x06, 0x0F, 0x05, 0xFE, 0x10, 0xCB, 0x10, 0xCB, 0x6C, 0xF5, 0xC1, 0x0D, 0x31, 0xF0, 0xFF,
        0xC5, 0xF1, 0x3D, 0x18, 0x00, 0x00,
    ];
    let mut bus = bus_with(&[(0x0150, program)]);
    let mut cpu = start_at(&bus, 0x0150);
    let mut cycles = 0;
    while cpu.instruction_addr() < 0x0150 + program.len() as u16 - 1 {
        assert_eq!(cpu.emulate_cycle(&mut bus), Ok(()));
        assert_eq!(cpu.regs.f & 0x0F, 0);
        cycles += 1;
        assert!(cycles < 200);
    }
    assert_eq!(cycles, 2 + 2 + 1 + 2 + 2 + 2 + 4 + 3 + 1 + 3 + 4 + 3 + 1 + 3);
}

#[test]
fn a_gap_leaves_registers_and_memory_alone() {
    let mut bus = bus_with(&[(0x0150, &[0x3E, 0x07, 0xFF])]);
    let mut cpu = start_at(&bus, 0x0150);
    bus.write(&mut cpu.interrupts, 0xFF80, 0x5A);
    assert_eq!(run_instruction(&mut cpu, &mut bus), 2);
    let regs = cpu.regs;
    let ints = cpu.interrupts;
    for _ in 0..3 {
        assert_eq!(
            cpu.emulate_cycle(&mut bus),
            Err(CoreError::UnimplementedOpcode { opcode: 0xFF, cb: false, pc: 0x0153 })
        );
        assert_eq!(cpu.regs, regs);
        assert_eq!(cpu.interrupts, ints);
        assert_eq!(bus.read(&cpu.interrupts, 0xFF80), 0x5A);
    }
}
