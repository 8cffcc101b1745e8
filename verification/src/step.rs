//! One step of the processor: serve an interrupt, or fetch, decode and
//! execute one instruction.

use vstd::prelude::*;
use crate::cpu::Outcome;
use crate::cpu::CPU;
use crate::instr::decode;
use crate::instr::decode_cb;
use crate::instr::spec_decode;
use crate::instr::spec_decode_cb;
use crate::instr::Instr;
use crate::interrupt::acknowledge;
use crate::interrupt::pending;
use crate::interrupt::spec_acknowledge;
use crate::interrupt::spec_pending;
use crate::interrupt::Interrupt;
use crate::interrupt::DISPATCH_CYCLES;
use crate::laws::lemma_step_frame;
use crate::memory::next_address;
use crate::memory::spec_next;
use crate::memory::Memory;
use crate::memory::MemoryView;
use crate::memory::IE_ADDRESS;
use crate::memory::IF_ADDRESS;

verus! {

impl CPU {
    /// The interrupt that the next step serves, if it serves one: the
    /// pending interrupt of highest priority, while the master enable is
    /// set.
    pub open spec fn spec_interrupt(self, mem: MemoryView) -> Option<Interrupt> {
        if self.interrupts {
            spec_pending(mem.read(IF_ADDRESS), mem.read(IE_ADDRESS))
        } else {
            None
        }
    }

    /// What dispatching `interrupt` leaves behind: its request bit is
    /// cleared, the program counter is pushed, execution continues at the
    /// interrupt's vector with the master enable cleared.
    pub open spec fn spec_dispatch(self, mem: MemoryView, interrupt: Interrupt) -> Outcome {
        let acknowledged = mem.write(
            IF_ADDRESS,
            spec_acknowledge(mem.read(IF_ADDRESS), interrupt),
        );
        let (cpu, after) = self.spec_push_short(acknowledged, self.program_counter);
        Outcome {
            cpu: CPU { program_counter: interrupt.spec_vector(), interrupts: false, ..cpu },
            mem: after,
            cycles: DISPATCH_CYCLES as int,
        }
    }

    /// The state in which an instruction is fetched: a mark left by EI has
    /// become the master enable.
    pub open spec fn spec_settle(self) -> CPU {
        if self.transition_enable_interrupts {
            CPU { transition_enable_interrupts: false, interrupts: true, ..self }
        } else {
            self
        }
    }

    /// Whether the byte at the program counter names an instruction that
    /// this core executes; with the 0xCB prefix, whether the byte after it
    /// does so in the second table.
    pub open spec fn spec_fetchable(self, mem: MemoryView) -> bool {
        match spec_decode(mem.read(self.program_counter)) {
            None => false,
            Some(Instr::Prefix) => spec_decode_cb(mem.read(spec_next(self.program_counter)))
                is Some,
            Some(_) => true,
        }
    }

    /// Whether a step can be taken: an interrupt is served, or the
    /// instruction at the program counter is one that this core executes.
    pub open spec fn spec_defined(self, mem: MemoryView) -> bool {
        self.spec_interrupt(mem) is Some || self.spec_fetchable(mem)
    }

    /// What one step leaves behind. If an interrupt is served, nothing is
    /// fetched. Otherwise a mark left by EI takes effect, the opcode at the
    /// program counter is fetched, the program counter steps over it, and
    /// the instruction it names is executed.
    pub open spec fn spec_step(self, mem: MemoryView) -> Outcome {
        match self.spec_interrupt(mem) {
            Some(interrupt) => self.spec_dispatch(mem, interrupt),
            None => match spec_decode(mem.read(self.program_counter)) {
                Some(instr) => self.spec_settle().spec_advance(1).spec_execute(mem, instr),
                None => Outcome { cpu: self.spec_settle().spec_advance(1), mem, cycles: 0 },
            },
        }
    }

    /// Whether a step can be taken from this state.
    pub fn defined(&self, memory: &Memory) -> (can: bool)
        requires
            memory.wf(),
        ensures
            can == self.spec_defined(memory@),
    {
        if self.interrupts && pending(
            memory.read_byte(IF_ADDRESS),
            memory.read_byte(IE_ADDRESS),
        ).is_some() {
            return true;
        }
        match decode(memory.read_byte(self.program_counter)) {
            None => false,
            Some(Instr::Prefix) => decode_cb(
                memory.read_byte(next_address(self.program_counter)),
            ).is_some(),
            Some(_) => true,
        }
    }

    /// Serves `interrupt` and returns the cost of the dispatch.
    pub fn dispatch(&mut self, memory: &mut Memory, interrupt: Interrupt) -> (cycles: i64)
        requires
            old(memory).wf(),
        ensures
            final(memory).wf(),
            (Outcome { cpu: *final(self), mem: final(memory)@, cycles: cycles as int })
                == old(self).spec_dispatch(old(memory)@, interrupt),
    {
        let requested: u8 = memory.read_byte(IF_ADDRESS);
        memory.write_byte(IF_ADDRESS, acknowledge(requested, interrupt));
        let pc: u16 = self.program_counter;
        self.push_short(memory, pc);
        self.program_counter = interrupt.vector();
        self.interrupts = false;
        DISPATCH_CYCLES
    }

    /// Takes one step and returns the clock ticks it cost.
    ///
    /// An opcode that names no instruction is left out: see
    /// [`CPU::defined`] and [`CPU::checked_step`].
    pub fn step(&mut self, memory: &mut Memory) -> (cycles: i64)
        requires
            old(memory).wf(),
            old(self).spec_defined(old(memory)@),
        ensures
            final(memory).wf(),
            (Outcome { cpu: *final(self), mem: final(memory)@, cycles: cycles as int })
                == old(self).spec_step(old(memory)@),
            cycles > 0,
    {
        if self.interrupts {
            let active_interrupt: Option<Interrupt> = pending(
                memory.read_byte(IF_ADDRESS),
                memory.read_byte(IE_ADDRESS),
            );
            if let Some(interrupt) = active_interrupt {
                return self.dispatch(memory, interrupt);
            }
        }
        if self.transition_enable_interrupts {
            self.transition_enable_interrupts = false;
            self.interrupts = true;
        }
        let opcode: u8 = memory.read_byte(self.program_counter);
        self.program_counter = next_address(self.program_counter);
        let instr: Instr = decode(opcode).unwrap();
        let cycles: i64 = self.execute(memory, instr);
        proof {
            lemma_step_frame(*old(self), old(memory)@);
        }
        cycles
    }

    /// Takes one step if one can be taken, and returns the clock ticks it
    /// cost; returns `None`, with nothing changed, if the opcode at the
    /// program counter names no instruction.
    pub fn checked_step(&mut self, memory: &mut Memory) -> (cycles: Option<i64>)
        requires
            old(memory).wf(),
        ensures
            final(memory).wf(),
            old(self).spec_defined(old(memory)@) ==> cycles is Some && (Outcome {
                cpu: *final(self),
                mem: final(memory)@,
                cycles: cycles->Some_0 as int,
            }) == old(self).spec_step(old(memory)@),
            !old(self).spec_defined(old(memory)@) ==> cycles is None && *final(self) == *old(self)
                && final(memory)@ == old(memory)@,
    {
        if self.defined(memory) {
            Some(self.step(memory))
        } else {
            None
        }
    }
}

} // verus!
