use gb_core::bootrom::Bootrom;
use gb_core::cartridge::Cartridge;
use gb_core::cpu::instructions::jump_target;
use gb_core::cpu::interrupts::Interrupts;
use gb_core::cpu::operand::{Cond, Direct8, Imm16, Imm8, Indirect, Reg16, Reg8, IO16, IO8};
use gb_core::cpu::{Access, Cpu, Phase};
use gb_core::error::CoreError;
use gb_core::peripherals::Peripherals;

fn machine(program: &[u8]) -> (Cpu, Peripherals) {
    let mut rom = vec![0u8; 0x8000];
    for (i, byte) in program.iter().enumerate() {
        rom[0x0150 + i] = *byte;
    }
    let mut bus = Peripherals::new(Bootrom::new(Vec::new()), Cartridge::new(rom).unwrap());
    let mut ints = Interrupts::default();
    bus.write(&mut ints, 0xFF50, 1);
    let mut cpu = Cpu::new();
    cpu.regs.pc = 0x0150;
    cpu.regs.sp = 0xFFFE;
    (cpu, bus)
}

fn drive(cpu: &mut Cpu, bus: &mut Peripherals) -> usize {
    let mut n = 0;
    loop {
        cpu.emulate_cycle(bus).unwrap();
        n += 1;
        if cpu.is_idle() {
            return n;
        }
        assert!(n < 16);
    }
}

fn fetched(program: &[u8]) -> (Cpu, Peripherals) {
    let (mut cpu, bus) = machine(program);
    cpu.fetch(&bus);
    (cpu, bus)
}

#[test]
fn register_operands_take_no_cycle() {
    let (mut cpu, mut bus) = machine(&[]);
    cpu.regs.a = 1;
    cpu.regs.b = 2;
    cpu.regs.c = 3;
    cpu.regs.d = 4;
    cpu.regs.e = 5;
    cpu.regs.h = 6;
    cpu.regs.l = 7;
    let all = [Reg8::A, Reg8::B, Reg8::C, Reg8::D, Reg8::E, Reg8::H, Reg8::L];
    for (i, r) in all.iter().enumerate() {
        assert_eq!(cpu.read8(&bus, *r), Some(i as u8 + 1));
        assert_eq!(cpu.write8(&mut bus, *r, 0x10 + i as u8), Ok(Some(())));
        assert_eq!(cpu.read8(&bus, *r), Some(0x10 + i as u8));
    }
    assert!(cpu.is_idle());
    assert_eq!(cpu.regs.pc, 0x0150);
}

#[test]
fn register_pair_operands_take_no_cycle() {
    let (mut cpu, mut bus) = machine(&[]);
    for (i, r) in [Reg16::AF, Reg16::BC, Reg16::DE, Reg16::HL, Reg16::SP].iter().enumerate() {
        let val = 0x1230 + 0x1000 * i as u16;
        assert_eq!(cpu.write16(&mut bus, *r, val), Ok(Some(())));
        assert_eq!(cpu.read16(&bus, *r), Some(val));
    }
    assert_eq!(cpu.regs.af(), 0x1230);
    assert_eq!(cpu.regs.bc(), 0x2230);
    assert_eq!(cpu.regs.de(), 0x3230);
    assert_eq!(cpu.regs.hl(), 0x4230);
    assert_eq!(cpu.regs.sp, 0x5230);
    assert_eq!(cpu.write16(&mut bus, Reg16::AF, 0xFFFF), Ok(Some(())));
    assert_eq!(cpu.read16(&bus, Reg16::AF), Some(0xFFF0));
}

#[test]
fn immediate_byte_takes_one_cycle() {
    let (mut cpu, bus) = machine(&[0xAB, 0xCD]);
    assert_eq!(cpu.read8(&bus, Imm8), None);
    assert_eq!(cpu.regs.pc, 0x0151);
    assert_eq!(cpu.access, Access::Byte(0xAB));
    assert_eq!(cpu.read8(&bus, Imm8), Some(0xAB));
    assert_eq!(cpu.regs.pc, 0x0151);
    assert_eq!(cpu.access, Access::Idle);
    assert_eq!(cpu.read8(&bus, Imm8), None);
    assert_eq!(cpu.read8(&bus, Imm8), Some(0xCD));
}

#[test]
fn immediate_word_takes_two_cycles_low_byte_first() {
    let (mut cpu, bus) = machine(&[0x34, 0x12]);
    assert_eq!(cpu.read16(&bus, Imm16), None);
    assert_eq!(cpu.access, Access::Low(0x34));
    assert_eq!(cpu.regs.pc, 0x0151);
    assert_eq!(cpu.read16(&bus, Imm16), None);
    assert_eq!(cpu.access, Access::Word(0x1234));
    assert_eq!(cpu.regs.pc, 0x0152);
    assert_eq!(cpu.read16(&bus, Imm16), Some(0x1234));
    assert_eq!(cpu.regs.pc, 0x0152);
    assert_eq!(cpu.access, Access::Idle);
}

#[test]
fn immediates_cannot_be_written() {
    let (mut cpu, mut bus) = fetched(&[0x06, 0x01]);
    let before = cpu;
    let gap = CoreError::UnimplementedOpcode { opcode: 0x06, cb: false, pc: 0x0151 };
    assert_eq!(cpu.write8(&mut bus, Imm8, 0x12), Err(gap));
    assert_eq!(cpu.write16(&mut bus, Imm16, 0x1234), Err(gap));
    assert_eq!(cpu, before);
    assert_eq!(cpu.ld(&mut bus, Imm8, Reg8::A), Err(gap));
    assert_eq!(cpu.ld16(&mut bus, Imm16, Reg16::HL), Err(gap));
    assert_eq!(cpu.inc(&mut bus, Imm8), Ok(()));
    assert_eq!(cpu.inc(&mut bus, Imm8), Err(CoreError::UnimplementedOpcode { opcode: 0x06, cb: false, pc: 0x0152 }));
}

#[test]
fn indirect_read_takes_one_cycle() {
    let (mut cpu, mut bus) = machine(&[]);
    bus.write(&mut cpu.interrupts, 0xFF90, 0x11);
    bus.write(&mut cpu.interrupts, 0xFF91, 0x22);
    bus.write(&mut cpu.interrupts, 0xFF92, 0x33);
    bus.write(&mut cpu.interrupts, 0xFF85, 0x44);
    cpu.regs.write_bc(0xFF90);
    cpu.regs.write_de(0xFF91);
    cpu.regs.write_hl(0xFF92);
    assert_eq!(cpu.read8(&bus, Indirect::BC), None);
    assert_eq!(cpu.read8(&bus, Indirect::BC), Some(0x11));
    assert_eq!(cpu.read8(&bus, Indirect::DE), None);
    assert_eq!(cpu.read8(&bus, Indirect::DE), Some(0x22));
    assert_eq!(cpu.read8(&bus, Indirect::HL), None);
    assert_eq!(cpu.read8(&bus, Indirect::HL), Some(0x33));
    assert_eq!(cpu.regs.hl(), 0xFF92);
    cpu.regs.c = 0x85;
    assert_eq!(cpu.read8(&bus, Indirect::CFF), None);
    assert_eq!(cpu.read8(&bus, Indirect::CFF), Some(0x44));
}

#[test]
fn indirect_with_step_moves_hl_once() {
    let (mut cpu, mut bus) = machine(&[]);
    bus.write(&mut cpu.interrupts, 0xFF92, 0x33);
    cpu.regs.write_hl(0xFF92);
    assert_eq!(cpu.read8(&bus, Indirect::HLI), None);
    assert_eq!(cpu.regs.hl(), 0xFF93);
    assert_eq!(cpu.read8(&bus, Indirect::HLI), Some(0x33));
    assert_eq!(cpu.regs.hl(), 0xFF93);
    cpu.regs.write_hl(0xFF92);
    assert_eq!(cpu.read8(&bus, Indirect::HLD), None);
    assert_eq!(cpu.regs.hl(), 0xFF91);
    assert_eq!(cpu.read8(&bus, Indirect::HLD), Some(0x33));
    assert_eq!(cpu.regs.hl(), 0xFF91);
    cpu.regs.write_hl(0xFFFF);
    assert_eq!(cpu.write8(&mut bus, Indirect::HLI, 0x1F), Ok(None));
    assert_eq!(cpu.regs.hl(), 0x0000);
    assert_eq!(cpu.interrupts.int_enables, 0x1F);
    assert_eq!(cpu.write8(&mut bus, Indirect::HLI, 0x1F), Ok(Some(())));
    assert_eq!(cpu.regs.hl(), 0x0000);
    assert_eq!(cpu.write8(&mut bus, Indirect::HLD, 0x1F), Ok(None));
    assert_eq!(cpu.regs.hl(), 0xFFFF);
}

#[test]
fn indirect_write_takes_one_cycle() {
    let (mut cpu, mut bus) = machine(&[]);
    cpu.regs.write_de(0xFF91);
    assert_eq!(cpu.write8(&mut bus, Indirect::DE, 0x77), Ok(None));
    assert_eq!(bus.read(&cpu.interrupts, 0xFF91), 0x77);
    assert_eq!(cpu.access, Access::Written);
    assert_eq!(cpu.write8(&mut bus, Indirect::DE, 0x78), Ok(Some(())));
    assert_eq!(bus.read(&cpu.interrupts, 0xFF91), 0x77);
    assert_eq!(cpu.access, Access::Idle);
}

#[test]
fn direct_address_takes_three_cycles() {
    let (mut cpu, mut bus) = machine(&[0x95, 0xFF, 0x96, 0xFF]);
    assert_eq!(cpu.write8(&mut bus, Direct8::D, 0x5A), Ok(None));
    assert_eq!(cpu.access, Access::Low(0x95));
    assert_eq!(cpu.write8(&mut bus, Direct8::D, 0x5A), Ok(None));
    assert_eq!(cpu.access, Access::Addr(0xFF95));
    assert_eq!(bus.read(&cpu.interrupts, 0xFF95), 0x00);
    assert_eq!(cpu.write8(&mut bus, Direct8::D, 0x5A), Ok(None));
    assert_eq!(bus.read(&cpu.interrupts, 0xFF95), 0x5A);
    assert_eq!(cpu.write8(&mut bus, Direct8::D, 0x5A), Ok(Some(())));
    assert_eq!(cpu.regs.pc, 0x0152);
    assert!(cpu.is_idle());
    bus.write(&mut cpu.interrupts, 0xFF96, 0xA5);
    assert_eq!(cpu.read8(&bus, Direct8::D), None);
    assert_eq!(cpu.read8(&bus, Direct8::D), None);
    assert_eq!(cpu.read8(&bus, Direct8::D), None);
    assert_eq!(cpu.read8(&bus, Direct8::D), Some(0xA5));
    assert_eq!(cpu.regs.pc, 0x0154);
}

#[test]
fn direct_high_page_takes_two_cycles() {
    let (mut cpu, mut bus) = machine(&[0x95, 0x96]);
    assert_eq!(cpu.write8(&mut bus, Direct8::DFF, 0x5A), Ok(None));
    assert_eq!(cpu.access, Access::Addr(0xFF95));
    assert_eq!(cpu.write8(&mut bus, Direct8::DFF, 0x5A), Ok(None));
    assert_eq!(bus.read(&cpu.interrupts, 0xFF95), 0x5A);
    assert_eq!(cpu.write8(&mut bus, Direct8::DFF, 0x5A), Ok(Some(())));
    bus.write(&mut cpu.interrupts, 0xFF96, 0xA5);
    assert_eq!(cpu.read8(&bus, Direct8::DFF), None);
    assert_eq!(cpu.read8(&bus, Direct8::DFF), None);
    assert_eq!(cpu.read8(&bus, Direct8::DFF), Some(0xA5));
    assert_eq!(cpu.regs.pc, 0x0152);
}

#[test]
fn loads_between_registers() {
    let (mut cpu, mut bus) = fetched(&[0x47, 0x57, 0x79, 0x7A, 0x7B]);
    cpu.regs.a = 0x11;
    cpu.regs.c = 0x22;
    cpu.regs.e = 0x33;
    assert_eq!(drive(&mut cpu, &mut bus), 1);
    assert_eq!(cpu.regs.b, 0x11);
    assert_eq!(drive(&mut cpu, &mut bus), 1);
    assert_eq!(cpu.regs.d, 0x11);
    assert_eq!(drive(&mut cpu, &mut bus), 1);
    assert_eq!(cpu.regs.a, 0x22);
    assert_eq!(drive(&mut cpu, &mut bus), 1);
    assert_eq!(cpu.regs.a, 0x11);
    assert_eq!(drive(&mut cpu, &mut bus), 1);
    assert_eq!(cpu.regs.a, 0x33);
    assert_eq!(cpu.regs.f, 0x00);
    assert_eq!(cpu.instruction_addr(), 0x0155);
}

#[test]
fn loads_of_immediates() {
    let (mut cpu, mut bus) = fetched(&[0x06, 0x01, 0x0E, 0x02, 0x2E, 0x03, 0x3E, 0x04]);
    for _ in 0..4 {
        assert_eq!(drive(&mut cpu, &mut bus), 2);
    }
    assert_eq!((cpu.regs.b, cpu.regs.c, cpu.regs.l, cpu.regs.a), (1, 2, 3, 4));
    assert_eq!(cpu.instruction_addr(), 0x0158);
}

#[test]
fn loads_of_words() {
    let (mut cpu, mut bus) = fetched(&[0x01, 0x34, 0x12, 0x11, 0x78, 0x56, 0x21, 0xBC, 0x9A, 0x31, 0xF0, 0xDE]);
    for _ in 0..4 {
        assert_eq!(drive(&mut cpu, &mut bus), 3);
    }
    assert_eq!(cpu.regs.bc(), 0x1234);
    assert_eq!(cpu.regs.de(), 0x5678);
    assert_eq!(cpu.regs.hl(), 0x9ABC);
    assert_eq!(cpu.regs.sp, 0xDEF0);
}

#[test]
fn loads_through_memory() {
    let (mut cpu, mut bus) = fetched(&[0x22, 0x32, 0x1A, 0xE0, 0x85, 0xEA, 0x86, 0xFF]);
    cpu.regs.a = 0x5A;
    cpu.regs.write_hl(0xFF90);
    cpu.regs.write_de(0xFF91);
    assert_eq!(drive(&mut cpu, &mut bus), 2);
    assert_eq!(bus.read(&cpu.interrupts, 0xFF90), 0x5A);
    assert_eq!(cpu.regs.hl(), 0xFF91);
    cpu.regs.a = 0xA5;
    assert_eq!(drive(&mut cpu, &mut bus), 2);
    assert_eq!(bus.read(&cpu.interrupts, 0xFF91), 0xA5);
    assert_eq!(cpu.regs.hl(), 0xFF90);
    cpu.regs.a = 0x00;
    assert_eq!(drive(&mut cpu, &mut bus), 2);
    assert_eq!(cpu.regs.a, 0xA5);
    assert_eq!(drive(&mut cpu, &mut bus), 3);
    assert_eq!(bus.read(&cpu.interrupts, 0xFF85), 0xA5);
    cpu.regs.a = 0x3C;
    assert_eq!(drive(&mut cpu, &mut bus), 4);
    assert_eq!(bus.read(&cpu.interrupts, 0xFF86), 0x3C);
    assert_eq!(cpu.instruction_addr(), 0x0158);
}

#[test]
fn decrement_sets_flags_and_keeps_carry() {
    let (mut cpu, mut bus) = fetched(&[0x05, 0x05, 0x05, 0x15, 0x0D, 0x3D]);
    cpu.regs.b = 0x02;
    cpu.regs.f = 0x10;
    assert_eq!(drive(&mut cpu, &mut bus), 1);
    assert_eq!(cpu.regs.b, 0x01);
    assert_eq!(cpu.regs.f, 0x50);
    assert_eq!(drive(&mut cpu, &mut bus), 1);
    assert_eq!(cpu.regs.b, 0x00);
    assert_eq!(cpu.regs.f, 0xD0);
    assert_eq!(drive(&mut cpu, &mut bus), 1);
    assert_eq!(cpu.regs.b, 0xFF);
    assert_eq!(cpu.regs.f, 0x70);
    cpu.regs.d = 0x10;
    cpu.regs.f = 0x00;
    assert_eq!(drive(&mut cpu, &mut bus), 1);
    assert_eq!(cpu.regs.d, 0x0F);
    assert_eq!(cpu.regs.f, 0x60);
    cpu.regs.c = 0x81;
    assert_eq!(drive(&mut cpu, &mut bus), 1);
    assert_eq!(cpu.regs.c, 0x80);
    assert_eq!(cpu.regs.f, 0x40);
    cpu.regs.a = 0x01;
    assert_eq!(drive(&mut cpu, &mut bus), 1);
    assert_eq!(cpu.regs.a, 0x00);
    assert_eq!(cpu.regs.f, 0xC0);
}

#[test]
fn increment_sets_flags_and_keeps_carry() {
    let (mut cpu, mut bus) = fetched(&[0x00]);
    cpu.regs.b = 0x0F;
    cpu.regs.f = 0x50;
    assert_eq!(cpu.inc(&mut bus, Reg8::B), Ok(()));
    assert!(cpu.is_idle());
    assert_eq!(cpu.regs.b, 0x10);
    assert_eq!(cpu.regs.f, 0x30);
    cpu.regs.b = 0xFF;
    assert_eq!(cpu.inc(&mut bus, Reg8::B), Ok(()));
    assert_eq!(cpu.regs.b, 0x00);
    assert_eq!(cpu.regs.f, 0xB0);
    cpu.regs.b = 0x41;
    cpu.regs.f = 0x00;
    assert_eq!(cpu.inc(&mut bus, Reg8::B), Ok(()));
    assert_eq!(cpu.regs.b, 0x42);
    assert_eq!(cpu.regs.f, 0x00);
}

#[test]
fn increment_then_decrement_gives_the_value_back() {
    for v in 0..=255u8 {
        for r in [Reg8::A, Reg8::B, Reg8::C, Reg8::D, Reg8::E, Reg8::H, Reg8::L] {
            let (mut cpu, mut bus) = fetched(&[0x00]);
            cpu.write8(&mut bus, r, v).unwrap();
            cpu.inc(&mut bus, r).unwrap();
            assert_eq!(cpu.read8(&bus, r), Some(v.wrapping_add(1)));
            cpu.dec(&mut bus, r).unwrap();
            assert_eq!(cpu.read8(&bus, r), Some(v));
            assert!(cpu.regs.nf());
            assert_eq!(cpu.regs.zf(), v == 0);
            assert_eq!(cpu.regs.hf(), v & 0x0F == 0x0F);
            cpu.dec(&mut bus, r).unwrap();
            cpu.inc(&mut bus, r).unwrap();
            assert_eq!(cpu.read8(&bus, r), Some(v));
            assert!(!cpu.regs.nf());
            assert_eq!(cpu.regs.zf(), v == 0);
            assert_eq!(cpu.regs.hf(), v & 0x0F == 0x00);
        }
    }
}

#[test]
fn increment_in_memory_takes_three_cycles() {
    let (mut cpu, mut bus) = fetched(&[0x00]);
    bus.write(&mut cpu.interrupts, 0xFF90, 0x0F);
    cpu.regs.write_hl(0xFF90);
    assert_eq!(cpu.inc(&mut bus, Indirect::HL), Ok(()));
    assert_eq!(cpu.phase, Phase::Start);
    assert_eq!(cpu.inc(&mut bus, Indirect::HL), Ok(()));
    assert_eq!(cpu.phase, Phase::Store8(0x10));
    assert_eq!(bus.read(&cpu.interrupts, 0xFF90), 0x10);
    assert!(!cpu.is_idle());
    assert_eq!(cpu.inc(&mut bus, Indirect::HL), Ok(()));
    assert!(cpu.is_idle());
    assert_eq!(cpu.regs.f, 0x20);
}

#[test]
fn word_steps_wrap_and_leave_flags() {
    let (mut cpu, mut bus) = fetched(&[0x13, 0x23]);
    cpu.regs.write_de(0xFFFF);
    cpu.regs.write_hl(0x12FF);
    cpu.regs.f = 0xF0;
    assert_eq!(drive(&mut cpu, &mut bus), 2);
    assert_eq!(cpu.regs.de(), 0x0000);
    assert_eq!(drive(&mut cpu, &mut bus), 2);
    assert_eq!(cpu.regs.hl(), 0x1300);
    assert_eq!(cpu.regs.f, 0xF0);
    assert_eq!(cpu.dec16(&mut bus, Reg16::DE), Ok(()));
    assert_eq!(cpu.regs.de(), 0xFFFF);
    assert_eq!(cpu.phase, Phase::Settle);
    assert_eq!(cpu.dec16(&mut bus, Reg16::DE), Ok(()));
    assert!(cpu.is_idle());
    assert_eq!(cpu.regs.de(), 0xFFFF);
    assert_eq!(cpu.inc16(&mut bus, Reg16::SP), Ok(()));
    assert_eq!(cpu.inc16(&mut bus, Reg16::SP), Ok(()));
    assert_eq!(cpu.regs.sp, 0xFFFF);
}

#[test]
fn compare_sets_borrow_flags() {
    for (a, v, f) in [
        (0x05u8, 0x05u8, 0xC0u8),
        (0x10, 0x01, 0x60),
        (0x00, 0x01, 0x70),
        (0x05, 0x10, 0x50),
        (0xFF, 0x00, 0x40),
        (0x3C, 0x2F, 0x60),
    ] {
        let (mut cpu, mut bus) = fetched(&[0xFE, v]);
        cpu.regs.a = a;
        cpu.regs.f = 0x00;
        assert_eq!(drive(&mut cpu, &mut bus), 2);
        assert_eq!(cpu.regs.f, f);
        assert_eq!(cpu.regs.a, a);
    }
}

#[test]
fn compare_with_a_register_takes_one_cycle() {
    let (mut cpu, bus) = fetched(&[0x00]);
    cpu.regs.a = 0x20;
    cpu.regs.b = 0x21;
    cpu.cp(&bus, Reg8::B);
    assert!(cpu.is_idle());
    assert_eq!(cpu.regs.f, 0x70);
    assert_eq!(cpu.instruction_addr(), 0x0151);
}

#[test]
fn bit_test_sets_zero_from_the_bit() {
    let (mut cpu, mut bus) = fetched(&[0xCB, 0x6C, 0xCB, 0x6C]);
    cpu.regs.h = 0x20;
    cpu.regs.f = 0x50;
    assert_eq!(drive(&mut cpu, &mut bus), 2);
    assert_eq!(cpu.regs.f, 0x30);
    cpu.regs.h = 0xDF;
    assert_eq!(drive(&mut cpu, &mut bus), 2);
    assert_eq!(cpu.regs.f, 0xB0);
    assert_eq!(cpu.regs.h, 0xDF);
    for bit in 0..8usize {
        cpu.regs.a = 1 << bit;
        cpu.regs.f = 0x00;
        cpu.bit(&bus, bit, Reg8::A);
        assert_eq!(cpu.regs.f, 0x20);
        cpu.regs.a = !(1 << bit);
        cpu.bit(&bus, bit, Reg8::A);
        assert_eq!(cpu.regs.f, 0xA0);
    }
}

#[test]
fn rotate_left_goes_through_the_carry() {
    let (mut cpu, mut bus) = fetched(&[0xCB, 0x10, 0xCB, 0x11, 0xCB, 0x10, 0xCB, 0x10]);
    cpu.regs.b = 0x80;
    cpu.regs.f = 0x00;
    assert_eq!(drive(&mut cpu, &mut bus), 2);
    assert_eq!(cpu.regs.b, 0x00);
    assert_eq!(cpu.regs.f, 0x90);
    cpu.regs.c = 0x01;
    assert_eq!(drive(&mut cpu, &mut bus), 2);
    assert_eq!(cpu.regs.c, 0x03);
    assert_eq!(cpu.regs.f, 0x00);
    cpu.regs.b = 0xFF;
    cpu.regs.f = 0xE0;
    assert_eq!(drive(&mut cpu, &mut bus), 2);
    assert_eq!(cpu.regs.b, 0xFE);
    assert_eq!(cpu.regs.f, 0x10);
    cpu.regs.b = 0x00;
    cpu.regs.f = 0x00;
    assert_eq!(drive(&mut cpu, &mut bus), 2);
    assert_eq!(cpu.regs.b, 0x00);
    assert_eq!(cpu.regs.f, 0x80);
}

#[test]
fn relative_jump_adds_a_signed_offset() {
    assert_eq!(jump_target(0x0152, 0x05), 0x0157);
    assert_eq!(jump_target(0x0152, 0xFE), 0x0150);
    assert_eq!(jump_target(0x0152, 0x80), 0x00D2);
    assert_eq!(jump_target(0x0152, 0x7F), 0x01D1);
    assert_eq!(jump_target(0x0001, 0xFE), 0xFFFF);
    assert_eq!(jump_target(0xFFFF, 0x01), 0x0000);
    let (mut cpu, mut bus) = fetched(&[0x18, 0xFE]);
    assert_eq!(drive(&mut cpu, &mut bus), 3);
    assert_eq!(cpu.instruction_addr(), 0x0150);
    assert_eq!(cpu.ctx.opcode, 0x18);
}

#[test]
fn conditions_read_the_flags() {
    let (mut cpu, _bus) = machine(&[]);
    cpu.regs.f = 0x80;
    assert!(cpu.cond(Cond::Z));
    assert!(!cpu.cond(Cond::NZ));
    assert!(cpu.cond(Cond::NC));
    assert!(!cpu.cond(Cond::C));
    cpu.regs.f = 0x10;
    assert!(!cpu.cond(Cond::Z));
    assert!(cpu.cond(Cond::NZ));
    assert!(!cpu.cond(Cond::NC));
    assert!(cpu.cond(Cond::C));
}

#[test]
fn conditional_jump_on_carry() {
    let (mut cpu, bus) = fetched(&[0x00, 0x10]);
    cpu.regs.f = 0x10;
    cpu.jr_c(&bus, Cond::C);
    cpu.jr_c(&bus, Cond::C);
    assert_eq!(cpu.phase, Phase::Settle);
    assert_eq!(cpu.regs.pc, 0x0162);
    cpu.jr_c(&bus, Cond::C);
    assert!(cpu.is_idle());
    assert_eq!(cpu.instruction_addr(), 0x0162);
    let (mut cpu, bus) = fetched(&[0x00, 0x10]);
    cpu.regs.f = 0x10;
    cpu.jr_c(&bus, Cond::NC);
    cpu.jr_c(&bus, Cond::NC);
    assert_eq!(cpu.phase, Phase::Settle);
    cpu.jr_c(&bus, Cond::NC);
    assert_eq!(cpu.instruction_addr(), 0x0152);
}

#[test]
fn absolute_jump_sets_the_program_counter() {
    let (mut cpu, mut bus) = fetched(&[0xC3, 0x00, 0x40]);
    assert_eq!(drive(&mut cpu, &mut bus), 3);
    assert_eq!(cpu.instruction_addr(), 0x4000);
    assert_eq!(cpu.regs.sp, 0xFFFE);
}

#[test]
fn push_writes_high_byte_first_below_the_stack_pointer() {
    let (mut cpu, mut bus) = machine(&[]);
    assert_eq!(cpu.push16(&mut bus, 0x1234), None);
    assert_eq!(cpu.regs.sp, 0xFFFE);
    assert_eq!(cpu.access, Access::Armed);
    assert_eq!(cpu.push16(&mut bus, 0x1234), None);
    assert_eq!(cpu.regs.sp, 0xFFFD);
    assert_eq!(bus.read(&cpu.interrupts, 0xFFFD), 0x12);
    assert_eq!(bus.read(&cpu.interrupts, 0xFFFC), 0x00);
    assert_eq!(cpu.push16(&mut bus, 0x1234), Some(()));
    assert_eq!(cpu.regs.sp, 0xFFFC);
    assert_eq!(bus.read(&cpu.interrupts, 0xFFFC), 0x34);
    assert_eq!(cpu.access, Access::Idle);
}

#[test]
fn pop_reads_low_byte_first_and_moves_the_stack_pointer_up() {
    let (mut cpu, mut bus) = machine(&[]);
    bus.write(&mut cpu.interrupts, 0xFFF0, 0x34);
    bus.write(&mut cpu.interrupts, 0xFFF1, 0x12);
    cpu.regs.sp = 0xFFF0;
    assert_eq!(cpu.pop16(&bus), None);
    assert_eq!(cpu.regs.sp, 0xFFF1);
    assert_eq!(cpu.pop16(&bus), None);
    assert_eq!(cpu.regs.sp, 0xFFF2);
    assert_eq!(cpu.pop16(&bus), Some(0x1234));
    assert_eq!(cpu.regs.sp, 0xFFF2);
    assert!(cpu.is_idle());
}

#[test]
fn push_then_pop_gives_the_pair_back() {
    let (mut cpu, mut bus) = fetched(&[0xC5, 0xC1, 0xF5, 0xF1, 0xE5]);
    cpu.regs.write_bc(0x1234);
    cpu.regs.write_af(0x56F0);
    cpu.regs.write_hl(0x9ABC);
    assert_eq!(drive(&mut cpu, &mut bus), 4);
    assert_eq!(cpu.regs.sp, 0xFFFC);
    cpu.regs.write_bc(0x0000);
    assert_eq!(drive(&mut cpu, &mut bus), 3);
    assert_eq!(cpu.regs.bc(), 0x1234);
    assert_eq!(cpu.regs.sp, 0xFFFE);
    assert_eq!(drive(&mut cpu, &mut bus), 4);
    cpu.regs.write_af(0x0000);
    assert_eq!(drive(&mut cpu, &mut bus), 3);
    assert_eq!(cpu.regs.af(), 0x56F0);
    assert_eq!(cpu.regs.sp, 0xFFFE);
    assert_eq!(drive(&mut cpu, &mut bus), 4);
    assert_eq!(bus.read(&cpu.interrupts, 0xFFFD), 0x9A);
    assert_eq!(bus.read(&cpu.interrupts, 0xFFFC), 0xBC);
}

#[test]
fn push_then_pop_by_method_for_every_pair() {
    for r in [Reg16::AF, Reg16::BC, Reg16::DE, Reg16::HL, Reg16::SP] {
        let (mut cpu, mut bus) = fetched(&[0x00]);
        cpu.regs.sp = 0xFFF0;
        if let Reg16::SP = r {
        } else {
            cpu.write16(&mut bus, r, 0xBEE0).unwrap();
        }
        let before = cpu.read16(&bus, r).unwrap();
        for _ in 0..4 {
            cpu.push(&mut bus, r);
        }
        assert!(cpu.is_idle());
        if let Reg16::SP = r {
        } else {
            assert_eq!(cpu.regs.sp, 0xFFEE);
            cpu.write16(&mut bus, r, 0x0000).unwrap();
        }
        for _ in 0..3 {
            cpu.pop(&mut bus, r);
        }
        assert!(cpu.is_idle());
        assert_eq!(cpu.read16(&bus, r), Some(before));
        assert_eq!(cpu.regs.sp, 0xFFF0);
    }
}

#[test]
fn pop_into_af_masks_the_low_nibble() {
    let (mut cpu, mut bus) = fetched(&[0xF1]);
    bus.write(&mut cpu.interrupts, 0xFFF0, 0xFF);
    bus.write(&mut cpu.interrupts, 0xFFF1, 0x12);
    cpu.regs.sp = 0xFFF0;
    assert_eq!(drive(&mut cpu, &mut bus), 3);
    assert_eq!(cpu.regs.af(), 0x12F0);
}

#[test]
fn stack_outside_ram_does_not_hold_what_is_pushed() {
    let (mut cpu, mut bus) = fetched(&[0xC5, 0xC1]);
    cpu.regs.sp = 0xD000;
    cpu.regs.write_bc(0x1234);
    assert_eq!(drive(&mut cpu, &mut bus), 4);
    assert_eq!(drive(&mut cpu, &mut bus), 3);
    assert_eq!(cpu.regs.bc(), 0xFFFF);
    assert_eq!(cpu.regs.sp, 0xD000);
}

#[test]
fn return_pops_the_program_counter() {
    let (mut cpu, mut bus) = fetched(&[0xC9]);
    bus.write(&mut cpu.interrupts, 0xFFF0, 0x00);
    bus.write(&mut cpu.interrupts, 0xFFF1, 0x30);
    cpu.regs.sp = 0xFFF0;
    assert_eq!(drive(&mut cpu, &mut bus), 4);
    assert_eq!(cpu.instruction_addr(), 0x3000);
    assert_eq!(cpu.regs.sp, 0xFFF2);
}

#[test]
fn no_op_only_fetches() {
    let (mut cpu, bus) = fetched(&[0x00, 0x47]);
    let before = cpu.regs;
    cpu.nop(&bus);
    assert_eq!(cpu.ctx.opcode, 0x47);
    assert_eq!(cpu.regs.pc, 0x0152);
    assert_eq!(cpu.regs.af(), before.af());
    assert_eq!(cpu.regs.sp, before.sp);
}

#[test]
fn prefix_replaces_the_opcode_in_flight() {
    let (mut cpu, mut bus) = fetched(&[0xCB, 0x11, 0x00]);
    cpu.regs.c = 0x40;
    assert_eq!(cpu.cb_prefixed(&mut bus), Ok(()));
    assert_eq!(cpu.ctx.opcode, 0xCB);
    assert!(!cpu.ctx.cb);
    assert_eq!(cpu.cb_prefixed(&mut bus), Ok(()));
    assert!(cpu.is_idle());
    assert_eq!(cpu.regs.c, 0x80);
    assert_eq!(cpu.ctx.opcode, 0x00);
    assert!(!cpu.ctx.cb);
}

#[test]
fn service_routine_entry_by_method() {
    let (mut cpu, mut bus) = fetched(&[0x00]);
    cpu.interrupts.ime = true;
    cpu.interrupts.int_flags = 0x0C;
    cpu.interrupts.int_enables = 0x08;
    cpu.call_isr(&mut bus);
    cpu.call_isr(&mut bus);
    cpu.call_isr(&mut bus);
    assert_eq!(cpu.phase, Phase::Settle);
    assert_eq!(cpu.regs.pc, 0x0151);
    assert!(cpu.interrupts.ime);
    cpu.call_isr(&mut bus);
    assert!(cpu.is_idle());
    assert_eq!(cpu.instruction_addr(), 0x0058);
    assert_eq!(cpu.interrupts.int_flags, 0x04);
    assert!(!cpu.interrupts.ime);
}
