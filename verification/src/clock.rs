//! Keeping time: the budget of clock ticks that elapsed time grants to the
//! processor and to the pixel unit, how the two spend it, and the register
//! values the machine starts with.

use vstd::prelude::*;
use crate::cpu::CPU;
use crate::memory::Memory;
use crate::memory::MemoryView;
use crate::ppu::Scan;
use crate::ppu::spec_step_cells;
use crate::ppu::PPU;
use crate::laws::lemma_step_frame;

verus! {

/// Nanoseconds that one clock tick lasts.
pub const NANOS_PER_CYCLE: i64 = 238;

/// The processor takes a step while its budget exceeds this many
/// nanoseconds, the time of its shortest instruction.
pub const CPU_RESERVE: i64 = 952;

/// The most that one credit adds to a budget, in nanoseconds.
pub const MAX_CREDIT: i64 = 100_000_000;

/// Time, in nanoseconds, that the processor and the pixel unit may still
/// spend. A budget goes below zero when a step costs more than was left.
#[derive(Clone, Copy, Debug, PartialEq, Eq, Structural)]
pub struct Budget {
    pub cpu: i64,
    pub ppu: i64,
}

/// How spending a budget ended.
#[derive(Clone, Copy, Debug, PartialEq, Eq, Structural)]
pub enum Drained {
    /// Neither the processor nor the pixel unit has budget for a step.
    Done,
    /// The processor has budget but stands at an opcode that names no
    /// instruction.
    Stuck,
}

/// The whole machine, as the clock sees it.
pub struct System {
    pub cpu: CPU,
    pub scan: Scan,
    pub mem: MemoryView,
    pub budget: Budget,
}

/// The nanoseconds that a credit of `elapsed` adds: all of it, up to a
/// tenth of a second.
pub open spec fn spec_credit(elapsed: u64) -> int {
    if elapsed > MAX_CREDIT {
        MAX_CREDIT as int
    } else {
        elapsed as int
    }
}

impl System {
    pub open spec fn wf(self) -> bool {
        &&& self.mem.wf()
        &&& self.scan.wf()
    }

    /// Whether the processor has budget for a step.
    pub open spec fn spec_cpu_due(self) -> bool {
        self.budget.cpu > CPU_RESERVE
    }

    /// Whether the pixel unit has budget for the mode it is in.
    pub open spec fn spec_ppu_due(self) -> bool {
        self.budget.ppu > self.scan.mode.spec_cycles() * NANOS_PER_CYCLE
    }

    /// Whether the processor has budget but cannot take a step.
    #[verifier::opaque]
    pub open spec fn spec_stuck(self) -> bool {
        self.spec_cpu_due() && !self.cpu.spec_defined(self.mem)
    }

    /// The machine after the processor's turn: one step, paid from its
    /// budget, if it has budget for one.
    #[verifier::opaque]
    pub open spec fn spec_cpu_turn(self) -> System {
        if self.spec_cpu_due() {
            let out = self.cpu.spec_step(self.mem);
            System {
                cpu: out.cpu,
                mem: out.mem,
                budget: Budget {
                    cpu: (self.budget.cpu - out.cycles * NANOS_PER_CYCLE) as i64,
                    ..self.budget
                },
                ..self
            }
        } else {
            self
        }
    }

    /// The machine after the pixel unit's turn: one transition, paid from
    /// its budget at the cost of the mode entered, if it has budget for
    /// the mode it is in.
    #[verifier::opaque]
    pub open spec fn spec_ppu_turn(self) -> System {
        if self.spec_ppu_due() {
            let next = self.scan.spec_next();
            System {
                scan: next,
                mem: MemoryView { bytes: spec_step_cells(self.mem.bytes, self.scan), ..self.mem },
                budget: Budget {
                    ppu: (self.budget.ppu - next.mode.spec_cycles() * NANOS_PER_CYCLE) as i64,
                    ..self.budget
                },
                ..self
            }
        } else {
            self
        }
    }

    /// The budget that is left above zero, which every round of turns
    /// lowers.
    pub open spec fn spec_left(self) -> int {
        (if self.budget.cpu > 0 {
            self.budget.cpu as int
        } else {
            0
        }) + (if self.budget.ppu > 0 {
            self.budget.ppu as int
        } else {
            0
        })
    }

    /// The machine once the budget is spent, and how that ended. In each
    /// round the processor takes its turn, then the pixel unit; the rounds
    /// end when neither has budget, or when the processor is stuck.
    pub open spec fn spec_drain(self) -> (System, Drained)
        decreases self.spec_left(),
        when self.wf()
        via Self::spec_drain_decreases
    {
        if self.spec_stuck() {
            (self, Drained::Stuck)
        } else if !self.spec_cpu_due() && !self.spec_ppu_due() {
            (self, Drained::Done)
        } else {
            self.spec_cpu_turn().spec_ppu_turn().spec_drain()
        }
    }

    #[via_fn]
    proof fn spec_drain_decreases(self) {
        if !self.spec_stuck() && (self.spec_cpu_due() || self.spec_ppu_due()) {
            lemma_round(self);
        }
    }
}

/// A round of turns keeps the machine well-formed and lowers the budget
/// that is left.
pub proof fn lemma_round(system: System)
    requires
        system.wf(),
        !system.spec_stuck(),
        system.spec_cpu_due() || system.spec_ppu_due(),
    ensures
        system.spec_cpu_turn().wf(),
        system.spec_cpu_turn().spec_ppu_turn().wf(),
        system.spec_cpu_turn().spec_ppu_turn().spec_left() < system.spec_left(),
{
    reveal(System::spec_stuck);
    reveal(System::spec_cpu_turn);
    reveal(System::spec_ppu_turn);
    if system.spec_cpu_due() {
        lemma_step_frame(system.cpu, system.mem);
    }
}

impl Budget {
    /// Grants both budgets the time that has elapsed, but no more than a
    /// tenth of a second.
    pub fn credit(&mut self, elapsed: u64)
        requires
            old(self).cpu <= i64::MAX - MAX_CREDIT,
            old(self).ppu <= i64::MAX - MAX_CREDIT,
        ensures
            final(self).cpu == old(self).cpu + spec_credit(elapsed),
            final(self).ppu == old(self).ppu + spec_credit(elapsed),
    {
        let granted: i64 = if elapsed > MAX_CREDIT as u64 { MAX_CREDIT } else { elapsed as i64 };
        self.cpu = self.cpu + granted;
        self.ppu = self.ppu + granted;
    }
}

/// The processor's turn: one step, paid from its budget, if it has budget
/// for one.
fn cpu_turn(budget: &mut Budget, cpu: &mut CPU, memory: &mut Memory, Ghost(scan): Ghost<Scan>)
    requires
        old(memory).wf(),
        scan.wf(),
        !(System { cpu: *old(cpu), scan, mem: old(memory)@, budget: *old(budget) }).spec_stuck(),
    ensures
        final(memory).wf(),
        (System { cpu: *final(cpu), scan, mem: final(memory)@, budget: *final(budget) }) == (System {
            cpu: *old(cpu),
            scan,
            mem: old(memory)@,
            budget: *old(budget),
        }).spec_cpu_turn(),
{
    proof {
        reveal(System::spec_stuck);
        reveal(System::spec_cpu_turn);
    }
    if budget.cpu > CPU_RESERVE {
        proof {
            lemma_step_frame(*cpu, memory@);
        }
        let cycles: i64 = cpu.step(memory);
        budget.cpu = budget.cpu - cycles * NANOS_PER_CYCLE;
    }
}

/// The pixel unit's turn: one transition, paid from its budget at the
/// cost of the mode entered, if it has budget for the mode it is in.
fn ppu_turn(budget: &mut Budget, ppu: &mut PPU, memory: &mut Memory, Ghost(cpu): Ghost<CPU>)
    requires
        old(memory).wf(),
        old(ppu).wf(),
    ensures
        final(memory).wf(),
        final(ppu).wf(),
        final(ppu)@.frame == old(ppu)@.frame,
        (System { cpu, scan: final(ppu)@.scan, mem: final(memory)@, budget: *final(budget) })
            == (System {
            cpu,
            scan: old(ppu)@.scan,
            mem: old(memory)@,
            budget: *old(budget),
        }).spec_ppu_turn(),
{
    proof {
        reveal(System::spec_ppu_turn);
    }
    if budget.ppu > ppu.estimate_clock_cycles() * NANOS_PER_CYCLE {
        let cycles: i64 = ppu.step(memory);
        budget.ppu = budget.ppu - cycles * NANOS_PER_CYCLE;
    }
}

/// Spends the budget: the processor and the pixel unit take turns, each
/// stepping while it has budget, until neither has, or until the
/// processor, with budget left, stands at an opcode that names no
/// instruction. The pixel unit's frame is not touched.
pub fn drain(budget: &mut Budget, cpu: &mut CPU, ppu: &mut PPU, memory: &mut Memory) -> (status:
    Drained)
    requires
        old(memory).wf(),
        old(ppu).wf(),
    ensures
        final(memory).wf(),
        final(ppu).wf(),
        final(ppu)@.frame == old(ppu)@.frame,
        (
            System {
                cpu: *final(cpu),
                scan: final(ppu)@.scan,
                mem: final(memory)@,
                budget: *final(budget),
            },
            status,
        ) == (System {
            cpu: *old(cpu),
            scan: old(ppu)@.scan,
            mem: old(memory)@,
            budget: *old(budget),
        }).spec_drain(),
        status == Drained::Done ==> final(budget).cpu <= CPU_RESERVE && final(budget).ppu
            <= final(ppu)@.scan.mode.spec_cycles() * NANOS_PER_CYCLE,
{
    let ghost start = System { cpu: *cpu, scan: ppu@.scan, mem: memory@, budget: *budget };
    loop
        invariant
            memory.wf(),
            ppu.wf(),
            ppu@.frame == old(ppu)@.frame,
            start == (System {
                cpu: *old(cpu),
                scan: old(ppu)@.scan,
                mem: old(memory)@,
                budget: *old(budget),
            }),
            (System { cpu: *cpu, scan: ppu@.scan, mem: memory@, budget: *budget }).spec_drain()
                == start.spec_drain(),
        decreases (System { cpu: *cpu, scan: ppu@.scan, mem: memory@, budget: *budget }).spec_left(),
    {
        let ghost now = System { cpu: *cpu, scan: ppu@.scan, mem: memory@, budget: *budget };
        let cpu_due: bool = budget.cpu > CPU_RESERVE;
        let ppu_due: bool = budget.ppu > ppu.estimate_clock_cycles() * NANOS_PER_CYCLE;
        let stuck: bool = cpu_due && !cpu.defined(memory);
        assert(stuck == now.spec_stuck()) by {
            reveal(System::spec_stuck);
        }
        if stuck {
            assert(now.spec_drain() == (now, Drained::Stuck));
            return Drained::Stuck;
        }
        if !cpu_due && !ppu_due {
            assert(now.spec_drain() == (now, Drained::Done));
            return Drained::Done;
        }
        proof {
            lemma_round(now);
            assert(now.spec_drain() == now.spec_cpu_turn().spec_ppu_turn().spec_drain());
        }
        cpu_turn(budget, cpu, memory, Ghost(ppu@.scan));
        ppu_turn(budget, ppu, memory, Ghost(*cpu));
    }
}

/// Number of registers that the boot program leaves set.
pub const BOOT_VALUES: usize = 32;

/// The cells after the first `count` entries of `table` are stored, in
/// order: each entry is an address and the value of its cell.
pub open spec fn spec_store(bytes: Seq<u8>, table: Seq<(u16, u8)>, count: nat) -> Seq<u8>
    decreases count,
{
    if count == 0 {
        bytes
    } else {
        let entry = table[count - 1];
        spec_store(bytes, table, (count - 1) as nat).update(entry.0 as int, entry.1)
    }
}

/// The registers that the boot program leaves set, and their values:
/// timer, sound, LCD control and palettes, window, interrupt enable.
pub open spec fn spec_boot_values() -> Seq<(u16, u8)> {
    seq![
        (0xFF05u16, 0x00u8),
        (0xFF06u16, 0x00u8),
        (0xFF07u16, 0x00u8),
        (0xFF10u16, 0x80u8),
        (0xFF11u16, 0xBFu8),
        (0xFF12u16, 0xF3u8),
        (0xFF14u16, 0xBFu8),
        (0xFF16u16, 0x3Fu8),
        (0xFF17u16, 0x00u8),
        (0xFF19u16, 0xBFu8),
        (0xFF1Au16, 0x7Fu8),
        (0xFF1Bu16, 0xFFu8),
        (0xFF1Cu16, 0x9Fu8),
        (0xFF1Eu16, 0xBFu8),
        (0xFF20u16, 0xFFu8),
        (0xFF21u16, 0x00u8),
        (0xFF22u16, 0x00u8),
        (0xFF23u16, 0xBFu8),
        (0xFF24u16, 0x77u8),
        (0xFF25u16, 0xF3u8),
        (0xFF26u16, 0xF1u8),
        (0xFF40u16, 0x91u8),
        (0xFF42u16, 0x00u8),
        (0xFF43u16, 0x00u8),
        (0xFF44u16, 0x00u8),
        (0xFF45u16, 0x00u8),
        (0xFF47u16, 0xFCu8),
        (0xFF48u16, 0xFFu8),
        (0xFF49u16, 0xFFu8),
        (0xFF4Au16, 0x00u8),
        (0xFF4Bu16, 0x00u8),
        (0xFFFFu16, 0x00u8),
    ]
}

/// The table of the registers that the boot program leaves set.
pub fn boot_values() -> (table: [(u16, u8); 32])
    ensures
        table@ == spec_boot_values(),
{
    [
        (0xFF05, 0x00),
        (0xFF06, 0x00),
        (0xFF07, 0x00),
        (0xFF10, 0x80),
        (0xFF11, 0xBF),
        (0xFF12, 0xF3),
        (0xFF14, 0xBF),
        (0xFF16, 0x3F),
        (0xFF17, 0x00),
        (0xFF19, 0xBF),
        (0xFF1A, 0x7F),
        (0xFF1B, 0xFF),
        (0xFF1C, 0x9F),
        (0xFF1E, 0xBF),
        (0xFF20, 0xFF),
        (0xFF21, 0x00),
        (0xFF22, 0x00),
        (0xFF23, 0xBF),
        (0xFF24, 0x77),
        (0xFF25, 0xF3),
        (0xFF26, 0xF1),
        (0xFF40, 0x91),
        (0xFF42, 0x00),
        (0xFF43, 0x00),
        (0xFF44, 0x00),
        (0xFF45, 0x00),
        (0xFF47, 0xFC),
        (0xFF48, 0xFF),
        (0xFF49, 0xFF),
        (0xFF4A, 0x00),
        (0xFF4B, 0x00),
        (0xFFFF, 0x00),
    ]
}

/// Stores in each register the value that the boot program leaves in it.
/// The cells are set directly; no other cell and nothing of the cartridge
/// changes.
pub fn boot_registers(memory: &mut Memory)
    requires
        old(memory).wf(),
    ensures
        final(memory).wf(),
        final(memory)@.cart == old(memory)@.cart,
        final(memory)@.bytes == spec_store(
            old(memory)@.bytes,
            spec_boot_values(),
            BOOT_VALUES as nat,
        ),
{
    let table = boot_values();
    let mut i: usize = 0;
    while i < BOOT_VALUES
        invariant
            i <= BOOT_VALUES,
            table@ == spec_boot_values(),
            table@.len() == BOOT_VALUES,
            memory.wf(),
            memory@.cart == old(memory)@.cart,
            memory@.bytes == spec_store(old(memory)@.bytes, spec_boot_values(), i as nat),
        decreases BOOT_VALUES - i,
    {
        let (address, value) = table[i];
        memory.memory.set(address as usize, value);
        i += 1;
    }
}

} // verus!
