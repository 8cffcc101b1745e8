use gameboy::clock::boot_registers;
use gameboy::clock::boot_values;
use gameboy::clock::drain;
use gameboy::clock::Budget;
use gameboy::clock::Drained;
use gameboy::cpu::CPU;
use gameboy::memory::Memory;
use gameboy::ppu::Mode;
use gameboy::ppu::PPU;

fn machine(program: &[u8]) -> (CPU, PPU, Memory) {
    let mut memory = Memory::new();
    for (i, byte) in program.iter().enumerate() {
        memory.memory[0xC000 + i] = *byte;
    }
    let mut cpu = CPU::new();
    cpu.program_counter = 0xC000;
    (cpu, PPU::new(), memory)
}

#[test]
fn credit_adds_elapsed_time_up_to_a_tenth_of_a_second() {
    let mut budget = Budget { cpu: 10, ppu: -20 };
    budget.credit(1_000);
    assert_eq!(budget, Budget { cpu: 1_010, ppu: 980 });
    budget.credit(100_000_000);
    assert_eq!(budget, Budget { cpu: 100_001_010, ppu: 100_000_980 });
    budget.credit(100_000_001);
    assert_eq!(budget, Budget { cpu: 200_001_010, ppu: 200_000_980 });
    budget.credit(u64::MAX);
    assert_eq!(budget, Budget { cpu: 300_001_010, ppu: 300_000_980 });
    budget.credit(0);
    assert_eq!(budget, Budget { cpu: 300_001_010, ppu: 300_000_980 });
}

#[test]
fn drain_without_budget_does_nothing() {
    let (mut cpu, mut ppu, mut memory) = machine(&[0x3C]);
    let before = cpu;
    let mut budget = Budget { cpu: 952, ppu: 80 * 238 };
    assert_eq!(drain(&mut budget, &mut cpu, &mut ppu, &mut memory), Drained::Done);
    assert_eq!(cpu, before);
    assert_eq!(ppu.mode, Mode::OAMSearch);
    assert_eq!(budget, Budget { cpu: 952, ppu: 80 * 238 });
}

#[test]
fn drain_steps_the_processor_while_it_has_budget() {
    let (mut cpu, mut ppu, mut memory) = machine(&[0x3C, 0x3C, 0x3C, 0x3C]);
    cpu.a = 0;
    let mut budget = Budget { cpu: 953 + 2 * 952, ppu: 0 };
    assert_eq!(drain(&mut budget, &mut cpu, &mut ppu, &mut memory), Drained::Done);
    assert_eq!(cpu.a, 3);
    assert_eq!(cpu.program_counter, 0xC003);
    assert_eq!(budget, Budget { cpu: 953 - 952, ppu: 0 });
    assert_eq!(ppu.mode, Mode::OAMSearch);
}

#[test]
fn drain_steps_the_pixel_unit_at_the_cost_of_the_mode_entered() {
    let (mut cpu, mut ppu, mut memory) = machine(&[0x00]);
    let mut budget = Budget { cpu: 0, ppu: 80 * 238 + 1 };
    assert_eq!(drain(&mut budget, &mut cpu, &mut ppu, &mut memory), Drained::Done);
    assert_eq!(ppu.mode, Mode::PixelTransfer);
    assert_eq!(budget, Budget { cpu: 0, ppu: 80 * 238 + 1 - 172 * 238 });
    assert_eq!(cpu.program_counter, 0xC000);
    let mut budget = Budget { cpu: 0, ppu: 456 * 238 };
    assert_eq!(drain(&mut budget, &mut cpu, &mut ppu, &mut memory), Drained::Done);
    assert_eq!(ppu.mode, Mode::PixelTransfer);
    assert_eq!(ppu.current_line, 1);
    assert_eq!(budget, Budget { cpu: 0, ppu: (456 - 204 - 80 - 172) * 238 });
    assert_eq!(memory.memory[0xFF44], 1);
    assert_eq!(memory.memory[0xFF41] & 0x03, 3);
}

#[test]
fn drain_takes_turns_between_processor_and_pixel_unit() {
    let (mut cpu, mut ppu, mut memory) = machine(&[0xF0, 0x41, 0x47, 0xF0, 0x41, 0x4F, 0x00]);
    let mut budget = Budget { cpu: 1 + 32 * 238, ppu: 80 * 238 + 1 };
    assert_eq!(drain(&mut budget, &mut cpu, &mut ppu, &mut memory), Drained::Done);
    assert_eq!(cpu.b, 0x00);
    assert_eq!(cpu.c, 0x03);
    assert_eq!(cpu.program_counter, 0xC006);
    assert_eq!(ppu.mode, Mode::PixelTransfer);
    assert_eq!(budget, Budget { cpu: 1, ppu: 80 * 238 + 1 - 172 * 238 });
}

#[test]
fn drain_stops_at_an_opcode_without_an_instruction() {
    let (mut cpu, mut ppu, mut memory) = machine(&[0x3C, 0xD3, 0x3C]);
    cpu.a = 0;
    let mut budget = Budget { cpu: 1_000_000, ppu: 1_000_000 };
    assert_eq!(drain(&mut budget, &mut cpu, &mut ppu, &mut memory), Drained::Stuck);
    assert_eq!(cpu.a, 1);
    assert_eq!(cpu.program_counter, 0xC001);
    assert_eq!(budget.cpu, 1_000_000 - 952);
    assert_eq!(ppu.mode, Mode::PixelTransfer);
    assert_eq!(budget.ppu, 1_000_000 - 172 * 238);
    assert_eq!(drain(&mut budget, &mut cpu, &mut ppu, &mut memory), Drained::Stuck);
    assert_eq!(budget.cpu, 1_000_000 - 952);
    assert_eq!(ppu.mode, Mode::PixelTransfer);
}

#[test]
fn drain_runs_a_loop_until_the_budget_is_spent() {
    let (mut cpu, mut ppu, mut memory) = machine(&[0x3C, 0x18, 0xFD]);
    cpu.a = 0;
    let mut budget = Budget { cpu: 16 * 238 * 100, ppu: 0 };
    assert_eq!(drain(&mut budget, &mut cpu, &mut ppu, &mut memory), Drained::Done);
    assert!(budget.cpu <= 952);
    assert!(budget.cpu > 952 - 12 * 238);
    assert_eq!(cpu.a, 100);
}

#[test]
fn boot_registers_sets_the_table_and_nothing_else() {
    let mut memory = Memory::new();
    for cell in memory.memory.iter_mut() {
        *cell = 0x5A;
    }
    boot_registers(&mut memory);
    let table = boot_values();
    assert_eq!(table.len(), 32);
    for (address, value) in table {
        assert_eq!(memory.memory[address as usize], value);
    }
    let changed = memory.memory.iter().filter(|cell| **cell != 0x5A).count();
    assert_eq!(changed, 32);
    assert_eq!(memory.memory[0xFF05], 0x00);
    assert_eq!(memory.memory[0xFF10], 0x80);
    assert_eq!(memory.memory[0xFF26], 0xF1);
    assert_eq!(memory.memory[0xFF40], 0x91);
    assert_eq!(memory.memory[0xFF47], 0xFC);
    assert_eq!(memory.memory[0xFF41], 0x5A);
    assert_eq!(memory.memory[0xFFFF], 0x00);
}
