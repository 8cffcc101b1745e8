use gameboy::cpu::CPU;
use gameboy::flags::Flags;
use gameboy::instr::decode;
use gameboy::instr::decode_cb;
use gameboy::instr::AluOp;
use gameboy::instr::CbInstr;
use gameboy::instr::Condition;
use gameboy::instr::Instr;
use gameboy::instr::Operand;
use gameboy::instr::Reg16;
use gameboy::instr::Reg8;
use gameboy::instr::StackPair;
use gameboy::memory::Memory;

const START: u16 = 0xC000;

fn machine(program: &[u8]) -> (CPU, Memory) {
    let mut memory = Memory::new();
    for (i, byte) in program.iter().enumerate() {
        memory.memory[START as usize + i] = *byte;
    }
    let mut cpu = CPU::new();
    cpu.program_counter = START;
    (cpu, memory)
}

fn flags(zero: bool, subtract: bool, half_carry: bool, carry: bool) -> Flags {
    Flags { zero, subtract, half_carry, carry }
}

fn run(cpu: &mut CPU, memory: &mut Memory, steps: usize) -> i64 {
    let mut cycles = 0;
    for _ in 0..steps {
        assert!(cpu.defined(memory));
        cycles += cpu.step(memory);
    }
    cycles
}

#[test]
fn power_up_state() {
    let cpu = CPU::new();
    assert_eq!(cpu.a, 0x01);
    assert_eq!(cpu.f.bits(), 0xB0);
    assert_eq!(cpu.af(), 0x01B0);
    assert_eq!(cpu.bc(), 0x0013);
    assert_eq!(cpu.de(), 0x00D8);
    assert_eq!(cpu.hl(), 0x014D);
    assert_eq!(cpu.stack_pointer, 0xFFFE);
    assert_eq!(cpu.program_counter, 0x0100);
    assert!(cpu.interrupts);
    assert!(!cpu.transition_enable_interrupts);
}

#[test]
fn nop_costs_four_ticks_and_moves_on() {
    let (mut cpu, mut memory) = machine(&[0x00]);
    let before = cpu;
    assert_eq!(cpu.step(&mut memory), 4);
    assert_eq!(cpu, CPU { program_counter: START + 1, ..before });
}

#[test]
fn fetch_wraps_at_the_top_of_memory() {
    let (mut cpu, mut memory) = machine(&[]);
    cpu.program_counter = 0xFFFF;
    memory.memory[0xFFFF] = 0x00;
    assert_eq!(cpu.step(&mut memory), 4);
    assert_eq!(cpu.program_counter, 0x0000);
}

#[test]
fn inc_at_ff_then_dec() {
    let (mut cpu, mut memory) = machine(&[0x06, 0xFF, 0x04, 0x05]);
    cpu.f = flags(false, true, false, false);
    assert_eq!(cpu.step(&mut memory), 8);
    assert_eq!(cpu.b, 0xFF);
    assert_eq!(cpu.step(&mut memory), 4);
    assert_eq!(cpu.b, 0x00);
    assert_eq!(cpu.f, flags(true, false, true, false));
    assert_eq!(cpu.step(&mut memory), 4);
    assert_eq!(cpu.b, 0xFF);
    assert_eq!(cpu.f, flags(false, true, true, false));
}

#[test]
fn inc_then_dec_restores_every_register() {
    let pairs = [
        (Reg8::B, 0x04u8, 0x05u8),
        (Reg8::C, 0x0C, 0x0D),
        (Reg8::D, 0x14, 0x15),
        (Reg8::E, 0x1C, 0x1D),
        (Reg8::H, 0x24, 0x25),
        (Reg8::L, 0x2C, 0x2D),
        (Reg8::A, 0x3C, 0x3D),
    ];
    for (register, inc, dec) in pairs {
        for value in [0x00u8, 0x01, 0x0F, 0x10, 0x7F, 0x80, 0xFE, 0xFF] {
            for carry in [false, true] {
                let (mut cpu, mut memory) = machine(&[inc, dec]);
                cpu.set_reg(register, value);
                cpu.f = flags(false, false, false, carry);
                let before = cpu;
                assert_eq!(run(&mut cpu, &mut memory, 2), 8);
                assert_eq!(cpu.reg(register), value);
                assert_eq!(cpu.f, flags(value == 0, true, value % 16 == 15, carry));
                assert_eq!(cpu, CPU { f: cpu.f, program_counter: START + 2, ..before });
            }
        }
    }
}

#[test]
fn inc_sets_half_carry_on_nibble_overflow_only() {
    let (mut cpu, mut memory) = machine(&[0x3C, 0x3C]);
    cpu.a = 0x0E;
    cpu.f = flags(true, true, true, true);
    cpu.step(&mut memory);
    assert_eq!(cpu.a, 0x0F);
    assert_eq!(cpu.f, flags(false, false, false, true));
    cpu.step(&mut memory);
    assert_eq!(cpu.a, 0x10);
    assert_eq!(cpu.f, flags(false, false, true, true));
}

#[test]
fn dec_sets_half_carry_on_nibble_borrow_only() {
    let (mut cpu, mut memory) = machine(&[0x3D, 0x3D]);
    cpu.a = 0x11;
    cpu.f = flags(false, false, false, false);
    cpu.step(&mut memory);
    assert_eq!(cpu.a, 0x10);
    assert_eq!(cpu.f, flags(false, true, false, false));
    cpu.step(&mut memory);
    assert_eq!(cpu.a, 0x0F);
    assert_eq!(cpu.f, flags(false, true, true, false));
}

#[test]
fn inc_and_dec_at_hl_go_through_memory() {
    let (mut cpu, mut memory) = machine(&[0x34, 0x35, 0x35]);
    cpu.h = 0xD0;
    cpu.l = 0x10;
    memory.memory[0xD010] = 0xFF;
    assert_eq!(cpu.step(&mut memory), 12);
    assert_eq!(memory.memory[0xD010], 0x00);
    assert!(cpu.f.zero && cpu.f.half_carry && !cpu.f.subtract);
    assert_eq!(cpu.step(&mut memory), 12);
    assert_eq!(memory.memory[0xD010], 0xFF);
    assert_eq!(cpu.step(&mut memory), 12);
    assert_eq!(memory.memory[0xD010], 0xFE);
    assert_eq!(cpu.program_counter, START + 3);
}

#[test]
fn push_then_pop_is_the_identity() {
    for (push, pop) in [(0xC5u8, 0xC1u8), (0xD5, 0xD1), (0xE5, 0xE1), (0xF5, 0xF1)] {
        let (mut cpu, mut memory) = machine(&[push, pop]);
        cpu.a = 0x12;
        cpu.f = flags(true, false, true, false);
        cpu.b = 0x34;
        cpu.c = 0x56;
        cpu.d = 0x78;
        cpu.e = 0x9A;
        cpu.h = 0xBC;
        cpu.l = 0xDE;
        cpu.stack_pointer = 0xD000;
        let before = cpu;
        assert_eq!(cpu.step(&mut memory), 16);
        assert_eq!(cpu.stack_pointer, 0xCFFE);
        assert_eq!(cpu.step(&mut memory), 12);
        assert_eq!(cpu, CPU { program_counter: START + 2, ..before });
    }
}

#[test]
fn push_writes_the_high_byte_uppermost() {
    let (mut cpu, mut memory) = machine(&[0xC5, 0xF5]);
    cpu.b = 0x12;
    cpu.c = 0x34;
    cpu.a = 0xAB;
    cpu.f = flags(true, true, false, true);
    cpu.stack_pointer = 0xD000;
    run(&mut cpu, &mut memory, 2);
    assert_eq!(memory.memory[0xCFFF], 0x12);
    assert_eq!(memory.memory[0xCFFE], 0x34);
    assert_eq!(memory.memory[0xCFFD], 0xAB);
    assert_eq!(memory.memory[0xCFFC], 0xD0);
    assert_eq!(cpu.stack_pointer, 0xCFFC);
}

#[test]
fn pop_af_drops_the_low_nibble_of_f() {
    let (mut cpu, mut memory) = machine(&[0xF1]);
    cpu.stack_pointer = 0xD000;
    memory.memory[0xD000] = 0xFF;
    memory.memory[0xD001] = 0x12;
    assert_eq!(cpu.step(&mut memory), 12);
    assert_eq!(cpu.a, 0x12);
    assert_eq!(cpu.f.bits(), 0xF0);
    assert_eq!(cpu.af(), 0x12F0);
    assert_eq!(cpu.stack_pointer, 0xD002);
}

#[test]
fn stack_pointer_wraps_on_push_and_pop() {
    let (mut cpu, mut memory) = machine(&[0xC5, 0xC1]);
    cpu.stack_pointer = 0x0001;
    cpu.step(&mut memory);
    assert_eq!(cpu.stack_pointer, 0xFFFF);
    cpu.step(&mut memory);
    assert_eq!(cpu.stack_pointer, 0x0001);
}

#[test]
fn xor_a_clears_a_and_sets_only_zero() {
    for a in [0x00u8, 0x01, 0x5A, 0xFF] {
        let (mut cpu, mut memory) = machine(&[0xAF]);
        cpu.a = a;
        cpu.f = flags(false, true, true, true);
        assert_eq!(cpu.step(&mut memory), 4);
        assert_eq!(cpu.a, 0x00);
        assert_eq!(cpu.f, flags(true, false, false, false));
    }
}

#[test]
fn vblank_interrupt_is_dispatched() {
    let (mut cpu, mut memory) = machine(&[0x00]);
    cpu.program_counter = 0xC123;
    cpu.stack_pointer = 0xD000;
    cpu.interrupts = true;
    memory.memory[0xFFFF] = 0x01;
    memory.memory[0xFF0F] = 0x01;
    let before = cpu;
    assert_eq!(cpu.step(&mut memory), 80);
    assert_eq!(
        cpu,
        CPU { program_counter: 0x0040, stack_pointer: 0xCFFE, interrupts: false, ..before }
    );
    assert_eq!(memory.memory[0xFF0F] & 0x01, 0x00);
    assert_eq!(memory.read_byte(0xFF0F), 0xE0);
    assert_eq!(memory.memory[0xCFFF], 0xC1);
    assert_eq!(memory.memory[0xCFFE], 0x23);
    assert_eq!(memory.memory[0xC123], 0x00);
}

#[test]
fn interrupts_are_served_in_order_of_priority() {
    let vectors = [0x0040u16, 0x0048, 0x0050, 0x0058, 0x0060];
    let (mut cpu, mut memory) = machine(&[0x00]);
    cpu.stack_pointer = 0xD000;
    memory.memory[0xFFFF] = 0x1F;
    memory.memory[0xFF0F] = 0x1F;
    let mut left = 0x1Fu8;
    for (i, vector) in vectors.iter().enumerate() {
        cpu.interrupts = true;
        assert_eq!(cpu.step(&mut memory), 80);
        assert_eq!(cpu.program_counter, *vector);
        assert!(!cpu.interrupts);
        left &= !(1 << i);
        assert_eq!(memory.memory[0xFF0F], left);
    }
}

#[test]
fn disabled_or_masked_interrupt_is_not_dispatched() {
    let (mut cpu, mut memory) = machine(&[0x00, 0x00]);
    cpu.interrupts = false;
    memory.memory[0xFFFF] = 0x01;
    memory.memory[0xFF0F] = 0x01;
    assert_eq!(cpu.step(&mut memory), 4);
    assert_eq!(cpu.program_counter, START + 1);
    assert_eq!(memory.memory[0xFF0F], 0x01);
    cpu.interrupts = true;
    memory.memory[0xFFFF] = 0x02;
    assert_eq!(cpu.step(&mut memory), 4);
    assert_eq!(cpu.program_counter, START + 2);
    assert_eq!(memory.memory[0xFF0F], 0x01);
    assert!(cpu.interrupts);
}

#[test]
fn ei_takes_effect_after_the_next_instruction() {
    let (mut cpu, mut memory) = machine(&[0xFB, 0x00, 0x00]);
    cpu.interrupts = false;
    assert_eq!(cpu.step(&mut memory), 4);
    assert!(!cpu.interrupts);
    assert!(cpu.transition_enable_interrupts);
    assert_eq!(cpu.step(&mut memory), 4);
    assert!(cpu.interrupts);
    assert!(!cpu.transition_enable_interrupts);
    assert_eq!(cpu.program_counter, START + 2);
}

#[test]
fn ei_does_not_let_an_interrupt_in_before_the_next_instruction() {
    let (mut cpu, mut memory) = machine(&[0xFB, 0x3C, 0x00]);
    cpu.interrupts = false;
    cpu.a = 0;
    cpu.stack_pointer = 0xD000;
    memory.memory[0xFFFF] = 0x04;
    memory.memory[0xFF0F] = 0x04;
    cpu.step(&mut memory);
    assert_eq!(cpu.step(&mut memory), 4);
    assert_eq!(cpu.a, 1);
    assert!(cpu.interrupts);
    assert_eq!(cpu.step(&mut memory), 80);
    assert_eq!(cpu.program_counter, 0x0050);
    assert_eq!(memory.memory[0xCFFF], 0xC0);
    assert_eq!(memory.memory[0xCFFE], 0x02);
}

#[test]
fn di_after_ei_leaves_interrupts_off() {
    let (mut cpu, mut memory) = machine(&[0xFB, 0xF3, 0x00]);
    cpu.interrupts = false;
    run(&mut cpu, &mut memory, 2);
    assert!(!cpu.interrupts);
    assert!(!cpu.transition_enable_interrupts);
    cpu.step(&mut memory);
    assert!(!cpu.interrupts);
}

#[test]
fn di_clears_the_master_enable_at_once() {
    let (mut cpu, mut memory) = machine(&[0xF3]);
    cpu.interrupts = true;
    assert_eq!(cpu.step(&mut memory), 4);
    assert!(!cpu.interrupts);
}

#[test]
fn add_sets_zero_half_carry_and_carry() {
    let (mut cpu, mut memory) = machine(&[0x3E, 0x3A, 0x06, 0xC6, 0x80]);
    assert_eq!(run(&mut cpu, &mut memory, 3), 20);
    assert_eq!(cpu.a, 0x00);
    assert_eq!(cpu.f, flags(true, false, true, true));
    let (mut cpu, mut memory) = machine(&[0xC6, 0x01]);
    cpu.a = 0x0F;
    assert_eq!(cpu.step(&mut memory), 8);
    assert_eq!(cpu.a, 0x10);
    assert_eq!(cpu.f, flags(false, false, true, false));
    let (mut cpu, mut memory) = machine(&[0x87]);
    cpu.a = 0x81;
    cpu.step(&mut memory);
    assert_eq!(cpu.a, 0x02);
    assert_eq!(cpu.f, flags(false, false, false, true));
}

#[test]
fn adc_adds_the_carry_flag() {
    let (mut cpu, mut memory) = machine(&[0x88]);
    cpu.a = 0xE1;
    cpu.b = 0x0F;
    cpu.f = flags(false, false, false, true);
    assert_eq!(cpu.step(&mut memory), 4);
    assert_eq!(cpu.a, 0xF1);
    assert_eq!(cpu.f, flags(false, false, true, false));
    let (mut cpu, mut memory) = machine(&[0xCE, 0xFF]);
    cpu.a = 0x00;
    cpu.f = flags(false, false, false, true);
    assert_eq!(cpu.step(&mut memory), 8);
    assert_eq!(cpu.a, 0x00);
    assert_eq!(cpu.f, flags(true, false, true, true));
    let (mut cpu, mut memory) = machine(&[0xCE, 0x01]);
    cpu.a = 0x01;
    cpu.f = flags(false, false, false, false);
    cpu.step(&mut memory);
    assert_eq!(cpu.a, 0x02);
    assert_eq!(cpu.f, flags(false, false, false, false));
}

#[test]
fn sub_sets_subtract_and_borrows() {
    let (mut cpu, mut memory) = machine(&[0x97]);
    cpu.a = 0x3E;
    assert_eq!(cpu.step(&mut memory), 4);
    assert_eq!(cpu.a, 0x00);
    assert_eq!(cpu.f, flags(true, true, false, false));
    let (mut cpu, mut memory) = machine(&[0xD6, 0x0F]);
    cpu.a = 0x3E;
    assert_eq!(cpu.step(&mut memory), 8);
    assert_eq!(cpu.a, 0x2F);
    assert_eq!(cpu.f, flags(false, true, true, false));
    let (mut cpu, mut memory) = machine(&[0x90]);
    cpu.a = 0x3E;
    cpu.b = 0x40;
    cpu.step(&mut memory);
    assert_eq!(cpu.a, 0xFE);
    assert_eq!(cpu.f, flags(false, true, false, true));
}

#[test]
fn sbc_subtracts_the_carry_flag() {
    let (mut cpu, mut memory) = machine(&[0x9C]);
    cpu.a = 0x3B;
    cpu.h = 0x2A;
    cpu.f = flags(false, false, false, true);
    assert_eq!(cpu.step(&mut memory), 4);
    assert_eq!(cpu.a, 0x10);
    assert_eq!(cpu.f, flags(false, true, false, false));
    let (mut cpu, mut memory) = machine(&[0xDE, 0xFF]);
    cpu.a = 0x00;
    cpu.f = flags(false, false, false, true);
    assert_eq!(cpu.step(&mut memory), 8);
    assert_eq!(cpu.a, 0x00);
    assert_eq!(cpu.f, flags(true, true, true, true));
    let (mut cpu, mut memory) = machine(&[0xDE, 0x3A]);
    cpu.a = 0x3B;
    cpu.f = flags(false, false, false, true);
    cpu.step(&mut memory);
    assert_eq!(cpu.a, 0x00);
    assert_eq!(cpu.f, flags(true, true, false, false));
}

#[test]
fn cp_sets_flags_and_keeps_a() {
    let (mut cpu, mut memory) = machine(&[0xB8, 0xFE, 0x3C, 0xFE, 0x40]);
    cpu.a = 0x3C;
    cpu.b = 0x2F;
    assert_eq!(cpu.step(&mut memory), 4);
    assert_eq!(cpu.a, 0x3C);
    assert_eq!(cpu.f, flags(false, true, true, false));
    assert_eq!(cpu.step(&mut memory), 8);
    assert_eq!(cpu.a, 0x3C);
    assert_eq!(cpu.f, flags(true, true, false, false));
    assert_eq!(cpu.step(&mut memory), 8);
    assert_eq!(cpu.a, 0x3C);
    assert_eq!(cpu.f, flags(false, true, false, true));
}

#[test]
fn and_or_xor_set_their_fixed_flags() {
    let (mut cpu, mut memory) = machine(&[0xE6, 0x3F, 0xF6, 0x0F, 0xEE, 0xFF, 0xE6, 0x00, 0xB1]);
    cpu.a = 0x5A;
    cpu.c = 0x00;
    cpu.f = flags(true, true, false, true);
    assert_eq!(cpu.step(&mut memory), 8);
    assert_eq!(cpu.a, 0x1A);
    assert_eq!(cpu.f, flags(false, false, true, false));
    assert_eq!(cpu.step(&mut memory), 8);
    assert_eq!(cpu.a, 0x1F);
    assert_eq!(cpu.f, flags(false, false, false, false));
    assert_eq!(cpu.step(&mut memory), 8);
    assert_eq!(cpu.a, 0xE0);
    assert_eq!(cpu.f, flags(false, false, false, false));
    assert_eq!(cpu.step(&mut memory), 8);
    assert_eq!(cpu.a, 0x00);
    assert_eq!(cpu.f, flags(true, false, true, false));
    assert_eq!(cpu.step(&mut memory), 4);
    assert_eq!(cpu.a, 0x00);
    assert_eq!(cpu.f, flags(true, false, false, false));
}

#[test]
fn alu_with_the_byte_at_hl_costs_eight() {
    let (mut cpu, mut memory) = machine(&[0x86, 0xBE]);
    cpu.a = 0x01;
    cpu.h = 0xD0;
    cpu.l = 0x00;
    memory.memory[0xD000] = 0x02;
    assert_eq!(cpu.step(&mut memory), 8);
    assert_eq!(cpu.a, 0x03);
    assert_eq!(cpu.step(&mut memory), 8);
    assert_eq!(cpu.f, flags(false, true, false, false));
}

#[test]
fn add_hl_keeps_zero_and_carries_out_of_the_low_byte_and_the_word() {
    let (mut cpu, mut memory) = machine(&[0x09, 0x19, 0x29, 0x39]);
    cpu.h = 0x8A;
    cpu.l = 0x23;
    cpu.b = 0x06;
    cpu.c = 0x05;
    cpu.f = flags(true, true, true, true);
    assert_eq!(cpu.step(&mut memory), 8);
    assert_eq!(cpu.hl(), 0x9028);
    assert_eq!(cpu.f, flags(true, false, false, false));
    cpu.d = 0x00;
    cpu.e = 0xD8;
    assert_eq!(cpu.step(&mut memory), 8);
    assert_eq!(cpu.hl(), 0x9100);
    assert_eq!(cpu.f, flags(true, false, true, false));
    assert_eq!(cpu.step(&mut memory), 8);
    assert_eq!(cpu.hl(), 0x2200);
    assert_eq!(cpu.f, flags(true, false, false, true));
    cpu.stack_pointer = 0xDEFF;
    cpu.l = 0x01;
    assert_eq!(cpu.step(&mut memory), 8);
    assert_eq!(cpu.hl(), 0x0100);
    assert_eq!(cpu.f, flags(true, false, true, true));
}

#[test]
fn add_sp_takes_a_signed_byte() {
    let (mut cpu, mut memory) = machine(&[0xE8, 0x02, 0xE8, 0xFF, 0xE8, 0x10]);
    cpu.stack_pointer = 0xFFF8;
    cpu.f = flags(true, true, true, true);
    assert_eq!(cpu.step(&mut memory), 16);
    assert_eq!(cpu.stack_pointer, 0xFFFA);
    assert_eq!(cpu.f, flags(false, false, false, false));
    cpu.stack_pointer = 0x0100;
    assert_eq!(cpu.step(&mut memory), 16);
    assert_eq!(cpu.stack_pointer, 0x00FF);
    assert_eq!(cpu.f, flags(false, false, false, true));
    cpu.stack_pointer = 0xFFF8;
    assert_eq!(cpu.step(&mut memory), 16);
    assert_eq!(cpu.stack_pointer, 0x0008);
    assert_eq!(cpu.f, flags(false, false, true, true));
    assert_eq!(cpu.program_counter, START + 6);
}

#[test]
fn rotates_of_a_move_the_bit_into_carry() {
    let (mut cpu, mut memory) = machine(&[0x07, 0x0F, 0x17, 0x1F, 0x07]);
    cpu.a = 0x85;
    cpu.f = flags(true, true, true, false);
    assert_eq!(cpu.step(&mut memory), 4);
    assert_eq!(cpu.a, 0x0B);
    assert_eq!(cpu.f, flags(false, false, false, true));
    cpu.a = 0x3B;
    assert_eq!(cpu.step(&mut memory), 4);
    assert_eq!(cpu.a, 0x9D);
    assert_eq!(cpu.f, flags(false, false, false, true));
    cpu.a = 0x40;
    assert_eq!(cpu.step(&mut memory), 4);
    assert_eq!(cpu.a, 0x80);
    assert_eq!(cpu.f, flags(false, false, false, false));
    cpu.a = 0x02;
    assert_eq!(cpu.step(&mut memory), 4);
    assert_eq!(cpu.a, 0x01);
    assert_eq!(cpu.f, flags(false, false, false, false));
    cpu.a = 0x00;
    assert_eq!(cpu.step(&mut memory), 4);
    assert_eq!(cpu.a, 0x00);
    assert_eq!(cpu.f, flags(false, false, false, false));
}

#[test]
fn prefixed_rotates_and_shifts() {
    let (mut cpu, mut memory) = machine(&[0xCB, 0x10, 0xCB, 0x19, 0xCB, 0x3A, 0xCB, 0x33, 0xCB, 0x37]);
    cpu.b = 0x80;
    cpu.c = 0x01;
    cpu.d = 0x01;
    cpu.e = 0xF1;
    cpu.a = 0x00;
    cpu.f = flags(true, true, true, false);
    assert_eq!(cpu.step(&mut memory), 8);
    assert_eq!(cpu.b, 0x01);
    assert_eq!(cpu.f, flags(false, false, false, true));
    assert_eq!(cpu.step(&mut memory), 8);
    assert_eq!(cpu.c, 0x80);
    assert_eq!(cpu.f, flags(false, false, false, true));
    assert_eq!(cpu.step(&mut memory), 8);
    assert_eq!(cpu.d, 0x00);
    assert_eq!(cpu.f, flags(false, false, false, true));
    assert_eq!(cpu.step(&mut memory), 8);
    assert_eq!(cpu.e, 0x1F);
    assert_eq!(cpu.f, flags(false, false, false, false));
    assert_eq!(cpu.step(&mut memory), 8);
    assert_eq!(cpu.a, 0x00);
    assert_eq!(cpu.f, flags(true, false, false, false));
    assert_eq!(cpu.program_counter, START + 10);
}

#[test]
fn prefixed_rotate_reaches_each_register() {
    let codes = [
        (Reg8::B, 0x10u8),
        (Reg8::C, 0x11),
        (Reg8::D, 0x12),
        (Reg8::E, 0x13),
        (Reg8::H, 0x14),
        (Reg8::L, 0x15),
        (Reg8::A, 0x17),
    ];
    for (register, code) in codes {
        let (mut cpu, mut memory) = machine(&[0xCB, code]);
        cpu.set_reg(register, 0x21);
        cpu.f = flags(false, false, false, false);
        let mut expected = cpu;
        expected.set_reg(register, 0x42);
        expected.program_counter = START + 2;
        assert_eq!(cpu.step(&mut memory), 8);
        assert_eq!(cpu, expected);
    }
}

#[test]
fn bit_tests_one_bit_and_keeps_carry() {
    let (mut cpu, mut memory) = machine(&[0xCB, 0x7C, 0xCB, 0x7C, 0xCB, 0x47, 0xCB, 0x67]);
    cpu.h = 0x80;
    cpu.a = 0xEF;
    cpu.f = flags(true, true, false, true);
    assert_eq!(cpu.step(&mut memory), 8);
    assert_eq!(cpu.f, flags(false, false, true, true));
    cpu.h = 0x7F;
    cpu.f.carry = false;
    assert_eq!(cpu.step(&mut memory), 8);
    assert_eq!(cpu.f, flags(true, false, true, false));
    assert_eq!(cpu.step(&mut memory), 8);
    assert_eq!(cpu.f, flags(false, false, true, false));
    assert_eq!(cpu.step(&mut memory), 8);
    assert_eq!(cpu.f, flags(true, false, true, false));
    assert_eq!(cpu.h, 0x7F);
    assert_eq!(cpu.a, 0xEF);
}

#[test]
fn res_clears_one_bit_and_no_flag() {
    let (mut cpu, mut memory) = machine(&[0xCB, 0x87, 0xCB, 0xB8, 0xCB, 0x9D]);
    cpu.a = 0xFF;
    cpu.b = 0xFF;
    cpu.l = 0x08;
    cpu.f = flags(true, false, true, false);
    assert_eq!(cpu.step(&mut memory), 8);
    assert_eq!(cpu.a, 0xFE);
    assert_eq!(cpu.step(&mut memory), 8);
    assert_eq!(cpu.b, 0x7F);
    assert_eq!(cpu.step(&mut memory), 8);
    assert_eq!(cpu.l, 0x00);
    assert_eq!(cpu.f, flags(true, false, true, false));
}

#[test]
fn cpl_flips_a() {
    let (mut cpu, mut memory) = machine(&[0x2F]);
    cpu.a = 0x35;
    cpu.f = flags(true, false, false, true);
    assert_eq!(cpu.step(&mut memory), 4);
    assert_eq!(cpu.a, 0xCA);
    assert_eq!(cpu.f, flags(true, true, true, true));
}

#[test]
fn relative_jumps() {
    let (mut cpu, mut memory) = machine(&[0x18, 0x05]);
    assert_eq!(cpu.step(&mut memory), 12);
    assert_eq!(cpu.program_counter, START + 7);
    let (mut cpu, mut memory) = machine(&[0x18, 0xFE]);
    assert_eq!(cpu.step(&mut memory), 12);
    assert_eq!(cpu.program_counter, START);
    let (mut cpu, mut memory) = machine(&[0x18, 0x80]);
    assert_eq!(cpu.step(&mut memory), 12);
    assert_eq!(cpu.program_counter, START + 2 - 128);
}

#[test]
fn conditional_relative_jumps_cost_less_when_not_taken() {
    for (code, zero, carry, taken) in [
        (0x20u8, false, false, true),
        (0x20, true, false, false),
        (0x28, true, false, true),
        (0x28, false, false, false),
        (0x30, false, false, true),
        (0x30, false, true, false),
        (0x38, false, true, true),
        (0x38, false, false, false),
    ] {
        let (mut cpu, mut memory) = machine(&[code, 0x10]);
        cpu.f = flags(zero, false, false, carry);
        let cycles = cpu.step(&mut memory);
        if taken {
            assert_eq!(cycles, 12);
            assert_eq!(cpu.program_counter, START + 0x12);
        } else {
            assert_eq!(cycles, 8);
            assert_eq!(cpu.program_counter, START + 2);
        }
    }
}

#[test]
fn absolute_jumps() {
    let (mut cpu, mut memory) = machine(&[0xC3, 0x34, 0x12]);
    assert_eq!(cpu.step(&mut memory), 16);
    assert_eq!(cpu.program_counter, 0x1234);
    let (mut cpu, mut memory) = machine(&[0xE9]);
    cpu.h = 0xAB;
    cpu.l = 0xCD;
    assert_eq!(cpu.step(&mut memory), 4);
    assert_eq!(cpu.program_counter, 0xABCD);
    for (code, zero, carry, taken) in [
        (0xC2u8, false, false, true),
        (0xC2, true, false, false),
        (0xCA, true, false, true),
        (0xCA, false, false, false),
        (0xD2, false, false, true),
        (0xD2, false, true, false),
        (0xDA, false, true, true),
        (0xDA, false, false, false),
    ] {
        let (mut cpu, mut memory) = machine(&[code, 0x78, 0x56]);
        cpu.f = flags(zero, false, false, carry);
        let cycles = cpu.step(&mut memory);
        if taken {
            assert_eq!(cycles, 16);
            assert_eq!(cpu.program_counter, 0x5678);
        } else {
            assert_eq!(cycles, 12);
            assert_eq!(cpu.program_counter, START + 3);
        }
    }
}

#[test]
fn call_and_return() {
    let (mut cpu, mut memory) = machine(&[0xCD, 0x00, 0xD0]);
    memory.memory[0xD000] = 0xC9;
    cpu.stack_pointer = 0xDFF0;
    assert_eq!(cpu.step(&mut memory), 24);
    assert_eq!(cpu.program_counter, 0xD000);
    assert_eq!(cpu.stack_pointer, 0xDFEE);
    assert_eq!(memory.memory[0xDFEF], 0xC0);
    assert_eq!(memory.memory[0xDFEE], 0x03);
    assert_eq!(cpu.step(&mut memory), 16);
    assert_eq!(cpu.program_counter, START + 3);
    assert_eq!(cpu.stack_pointer, 0xDFF0);
}

#[test]
fn conditional_calls_and_returns() {
    let (mut cpu, mut memory) = machine(&[0xC4, 0x00, 0xD0, 0xCC, 0x00, 0xD0]);
    memory.memory[0xD000] = 0xC0;
    memory.memory[0xD001] = 0xC8;
    cpu.stack_pointer = 0xDFF0;
    cpu.f = flags(true, false, false, false);
    assert_eq!(cpu.step(&mut memory), 12);
    assert_eq!(cpu.program_counter, START + 3);
    assert_eq!(cpu.stack_pointer, 0xDFF0);
    assert_eq!(cpu.step(&mut memory), 24);
    assert_eq!(cpu.program_counter, 0xD000);
    assert_eq!(cpu.stack_pointer, 0xDFEE);
    assert_eq!(cpu.step(&mut memory), 8);
    assert_eq!(cpu.program_counter, 0xD001);
    assert_eq!(cpu.step(&mut memory), 20);
    assert_eq!(cpu.program_counter, START + 6);
    assert_eq!(cpu.stack_pointer, 0xDFF0);
    let (mut cpu, mut memory) = machine(&[0xD4, 0x00, 0xD0]);
    memory.memory[0xD000] = 0xD8;
    memory.memory[0xD001] = 0xD0;
    cpu.stack_pointer = 0xDFF0;
    cpu.f = flags(false, false, false, false);
    assert_eq!(cpu.step(&mut memory), 24);
    assert_eq!(cpu.step(&mut memory), 8);
    assert_eq!(cpu.step(&mut memory), 20);
    assert_eq!(cpu.program_counter, START + 3);
    let (mut cpu, mut memory) = machine(&[0xDC, 0x00, 0xD0]);
    cpu.f = flags(false, false, false, true);
    cpu.stack_pointer = 0xDFF0;
    assert_eq!(cpu.step(&mut memory), 24);
    assert_eq!(cpu.program_counter, 0xD000);
}

#[test]
fn restarts_push_and_jump_to_their_fixed_address() {
    for (code, target) in [
        (0xC7u8, 0x00u16),
        (0xCF, 0x08),
        (0xD7, 0x10),
        (0xDF, 0x18),
        (0xE7, 0x20),
        (0xEF, 0x28),
        (0xF7, 0x30),
        (0xFF, 0x38),
    ] {
        let (mut cpu, mut memory) = machine(&[code]);
        cpu.stack_pointer = 0xD000;
        assert_eq!(cpu.step(&mut memory), 16);
        assert_eq!(cpu.program_counter, target);
        assert_eq!(cpu.stack_pointer, 0xCFFE);
        assert_eq!(memory.memory[0xCFFF], 0xC0);
        assert_eq!(memory.memory[0xCFFE], 0x01);
    }
}

#[test]
fn wide_immediate_loads() {
    let (mut cpu, mut memory) = machine(&[0x01, 0x34, 0x12, 0x11, 0x78, 0x56, 0x21, 0xBC, 0x9A, 0x31, 0xF0, 0xDE]);
    assert_eq!(run(&mut cpu, &mut memory, 4), 48);
    assert_eq!(cpu.bc(), 0x1234);
    assert_eq!(cpu.de(), 0x5678);
    assert_eq!(cpu.hl(), 0x9ABC);
    assert_eq!(cpu.stack_pointer, 0xDEF0);
    assert_eq!(cpu.b, 0x12);
    assert_eq!(cpu.c, 0x34);
}

#[test]
fn byte_immediate_loads() {
    let (mut cpu, mut memory) = machine(&[
        0x06, 1, 0x0E, 2, 0x16, 3, 0x1E, 4, 0x26, 0xD0, 0x2E, 6, 0x3E, 7, 0x36, 8,
    ]);
    assert_eq!(run(&mut cpu, &mut memory, 7), 56);
    assert_eq!((cpu.b, cpu.c, cpu.d, cpu.e, cpu.h, cpu.l, cpu.a), (1, 2, 3, 4, 0xD0, 6, 7));
    assert_eq!(cpu.step(&mut memory), 12);
    assert_eq!(memory.memory[0xD006], 8);
}

#[test]
fn register_to_register_loads() {
    let (mut cpu, mut memory) = machine(&[0x41, 0x50, 0x7A, 0x6F, 0x65, 0x40, 0x5C]);
    cpu.a = 0;
    cpu.b = 1;
    cpu.c = 2;
    cpu.d = 3;
    cpu.e = 4;
    cpu.h = 5;
    cpu.l = 6;
    assert_eq!(run(&mut cpu, &mut memory, 7), 28);
    assert_eq!((cpu.a, cpu.b, cpu.c, cpu.d, cpu.e, cpu.h, cpu.l), (2, 2, 2, 2, 2, 2, 2));
}

#[test]
fn loads_through_hl() {
    let (mut cpu, mut memory) = machine(&[0x70, 0x73, 0x46, 0x66, 0x7E]);
    cpu.h = 0xD0;
    cpu.l = 0x20;
    cpu.b = 0xAA;
    cpu.e = 0xBB;
    assert_eq!(cpu.step(&mut memory), 8);
    assert_eq!(memory.memory[0xD020], 0xAA);
    assert_eq!(cpu.step(&mut memory), 8);
    assert_eq!(memory.memory[0xD020], 0xBB);
    cpu.b = 0;
    assert_eq!(cpu.step(&mut memory), 8);
    assert_eq!(cpu.b, 0xBB);
    memory.memory[0xD020] = 0xD1;
    assert_eq!(cpu.step(&mut memory), 8);
    assert_eq!(cpu.hl(), 0xD120);
    memory.memory[0xD120] = 0x99;
    assert_eq!(cpu.step(&mut memory), 8);
    assert_eq!(cpu.a, 0x99);
}

#[test]
fn loads_through_pointers_with_a_step() {
    let (mut cpu, mut memory) = machine(&[0x02, 0x12, 0x22, 0x32, 0x0A, 0x1A, 0x2A, 0x3A]);
    cpu.a = 0x5A;
    cpu.b = 0xD0;
    cpu.c = 0x01;
    cpu.d = 0xD0;
    cpu.e = 0x02;
    cpu.h = 0xD0;
    cpu.l = 0xFF;
    assert_eq!(run(&mut cpu, &mut memory, 4), 32);
    assert_eq!(memory.memory[0xD001], 0x5A);
    assert_eq!(memory.memory[0xD002], 0x5A);
    assert_eq!(memory.memory[0xD0FF], 0x5A);
    assert_eq!(memory.memory[0xD100], 0x5A);
    assert_eq!(cpu.hl(), 0xD0FF);
    memory.memory[0xD001] = 1;
    memory.memory[0xD002] = 2;
    memory.memory[0xD0FF] = 3;
    memory.memory[0xD100] = 4;
    assert_eq!(cpu.step(&mut memory), 8);
    assert_eq!(cpu.a, 1);
    assert_eq!(cpu.step(&mut memory), 8);
    assert_eq!(cpu.a, 2);
    assert_eq!(cpu.step(&mut memory), 8);
    assert_eq!(cpu.a, 3);
    assert_eq!(cpu.hl(), 0xD100);
    assert_eq!(cpu.step(&mut memory), 8);
    assert_eq!(cpu.a, 4);
    assert_eq!(cpu.hl(), 0xD0FF);
}

#[test]
fn loads_at_fixed_addresses() {
    let (mut cpu, mut memory) = machine(&[
        0xE0, 0x80, 0xE2, 0xEA, 0x00, 0xD0, 0x08, 0x10, 0xD0, 0xF0, 0x81, 0xFA, 0x10, 0xD0, 0xF9,
    ]);
    cpu.a = 0x42;
    cpu.c = 0x81;
    cpu.stack_pointer = 0xBEEF;
    cpu.h = 0x12;
    cpu.l = 0x34;
    assert_eq!(cpu.step(&mut memory), 12);
    assert_eq!(memory.memory[0xFF80], 0x42);
    cpu.a = 0x43;
    assert_eq!(cpu.step(&mut memory), 8);
    assert_eq!(memory.memory[0xFF81], 0x43);
    assert_eq!(cpu.step(&mut memory), 16);
    assert_eq!(memory.memory[0xD000], 0x43);
    assert_eq!(cpu.step(&mut memory), 20);
    assert_eq!(memory.memory[0xD010], 0xEF);
    assert_eq!(memory.memory[0xD011], 0xBE);
    cpu.a = 0;
    assert_eq!(cpu.step(&mut memory), 12);
    assert_eq!(cpu.a, 0x43);
    assert_eq!(cpu.step(&mut memory), 16);
    assert_eq!(cpu.a, 0xEF);
    assert_eq!(cpu.step(&mut memory), 8);
    assert_eq!(cpu.stack_pointer, 0x1234);
    assert_eq!(cpu.program_counter, START + 15);
}

#[test]
fn wide_increments_and_decrements_wrap_and_keep_flags() {
    let (mut cpu, mut memory) = machine(&[0x03, 0x13, 0x23, 0x33, 0x0B, 0x1B, 0x2B, 0x3B, 0x0B]);
    cpu.b = 0x00;
    cpu.c = 0xFF;
    cpu.d = 0xFF;
    cpu.e = 0xFF;
    cpu.h = 0x12;
    cpu.l = 0x34;
    cpu.stack_pointer = 0xFFFF;
    cpu.f = flags(true, false, true, false);
    assert_eq!(run(&mut cpu, &mut memory, 4), 32);
    assert_eq!(cpu.bc(), 0x0100);
    assert_eq!(cpu.de(), 0x0000);
    assert_eq!(cpu.hl(), 0x1235);
    assert_eq!(cpu.stack_pointer, 0x0000);
    assert_eq!(run(&mut cpu, &mut memory, 4), 32);
    assert_eq!(cpu.bc(), 0x00FF);
    assert_eq!(cpu.de(), 0xFFFF);
    assert_eq!(cpu.hl(), 0x1234);
    assert_eq!(cpu.stack_pointer, 0xFFFF);
    cpu.b = 0;
    cpu.c = 0;
    cpu.step(&mut memory);
    assert_eq!(cpu.bc(), 0xFFFF);
    assert_eq!(cpu.f, flags(true, false, true, false));
}

#[test]
fn opcodes_without_an_instruction_are_not_stepped() {
    for code in [
        0x10u8, 0x27, 0x37, 0x3F, 0x76, 0xD3, 0xD9, 0xDB, 0xDD, 0xE3, 0xE4, 0xEB, 0xEC, 0xED, 0xF2,
        0xF4, 0xF8, 0xFC, 0xFD,
    ] {
        assert!(decode(code).is_none());
        let (mut cpu, mut memory) = machine(&[code, 0x00]);
        let before = cpu;
        assert!(!cpu.defined(&memory));
        assert_eq!(cpu.checked_step(&mut memory), None);
        assert_eq!(cpu, before);
        assert_eq!(memory.memory[START as usize], code);
    }
}

#[test]
fn prefixed_opcodes_without_an_instruction_are_not_stepped() {
    for code in [0x00u8, 0x08, 0x16, 0x20, 0x28, 0x36, 0x3E, 0x46, 0x7E, 0x86, 0xBE, 0xC0, 0xFF] {
        assert!(decode_cb(code).is_none());
        let (mut cpu, mut memory) = machine(&[0xCB, code]);
        let before = cpu;
        assert!(!cpu.defined(&memory));
        assert_eq!(cpu.checked_step(&mut memory), None);
        assert_eq!(cpu, before);
    }
}

#[test]
fn checked_step_steps_where_step_is_defined() {
    let (mut cpu, mut memory) = machine(&[0x3C, 0xCB, 0x37]);
    cpu.a = 0x0F;
    assert_eq!(cpu.checked_step(&mut memory), Some(4));
    assert_eq!(cpu.a, 0x10);
    assert_eq!(cpu.checked_step(&mut memory), Some(8));
    assert_eq!(cpu.a, 0x01);
    let (mut cpu, mut memory) = machine(&[0xD3]);
    cpu.stack_pointer = 0xD000;
    memory.memory[0xFFFF] = 0x10;
    memory.memory[0xFF0F] = 0x10;
    assert!(cpu.defined(&memory));
    assert_eq!(cpu.checked_step(&mut memory), Some(80));
    assert_eq!(cpu.program_counter, 0x0060);
}

#[test]
fn the_tables_name_the_instructions_they_should() {
    assert_eq!((0u8..=255).filter(|code| decode(*code).is_some()).count(), 237);
    assert_eq!((0u8..=255).filter(|code| decode_cb(*code).is_some()).count(), 140);
    assert_eq!(decode(0x00), Some(Instr::Nop));
    assert_eq!(decode(0x01), Some(Instr::LoadWide(Reg16::BC)));
    assert_eq!(decode(0x31), Some(Instr::LoadWide(Reg16::SP)));
    assert_eq!(decode(0x08), Some(Instr::StoreSp));
    assert_eq!(decode(0x39), Some(Instr::AddHl(Reg16::SP)));
    assert_eq!(decode(0x34), Some(Instr::Inc(Operand::AtHl)));
    assert_eq!(decode(0x3D), Some(Instr::Dec(Operand::Reg(Reg8::A))));
    assert_eq!(decode(0x38), Some(Instr::JumpRelativeIf(Condition::Carry)));
    assert_eq!(decode(0x46), Some(Instr::Load(Operand::Reg(Reg8::B), Operand::AtHl)));
    assert_eq!(decode(0x77), Some(Instr::Load(Operand::AtHl, Operand::Reg(Reg8::A))));
    assert_eq!(decode(0x7F), Some(Instr::Load(Operand::Reg(Reg8::A), Operand::Reg(Reg8::A))));
    assert_eq!(decode(0x80), Some(Instr::Alu(AluOp::Add, Operand::Reg(Reg8::B))));
    assert_eq!(decode(0xAF), Some(Instr::Alu(AluOp::Xor, Operand::Reg(Reg8::A))));
    assert_eq!(decode(0xBE), Some(Instr::Alu(AluOp::Cp, Operand::AtHl)));
    assert_eq!(decode(0xDE), Some(Instr::AluImmediate(AluOp::Sbc)));
    assert_eq!(decode(0xC1), Some(Instr::Pop(StackPair::BC)));
    assert_eq!(decode(0xF5), Some(Instr::Push(StackPair::AF)));
    assert_eq!(decode(0xC9), Some(Instr::Return));
    assert_eq!(decode(0xCB), Some(Instr::Prefix));
    assert_eq!(decode(0xCD), Some(Instr::Call));
    assert_eq!(decode(0xEF), Some(Instr::Restart(0x28)));
    assert_eq!(decode(0xF3), Some(Instr::DisableInterrupts));
    assert_eq!(decode(0xFB), Some(Instr::EnableInterrupts));
    assert_eq!(decode_cb(0x13), Some(CbInstr::RotateLeft(Reg8::E)));
    assert_eq!(decode_cb(0x1F), Some(CbInstr::RotateRight(Reg8::A)));
    assert_eq!(decode_cb(0x30), Some(CbInstr::Swap(Reg8::B)));
    assert_eq!(decode_cb(0x3D), Some(CbInstr::ShiftRight(Reg8::L)));
    assert_eq!(decode_cb(0x67), Some(CbInstr::Bit(4, Reg8::A)));
    assert_eq!(decode_cb(0x69), Some(CbInstr::Bit(5, Reg8::C)));
    assert_eq!(decode_cb(0x87), Some(CbInstr::Reset(0, Reg8::A)));
}
