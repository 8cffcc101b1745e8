//! Laws of the processor: what holds of every state and every memory,
//! stated over what a step leaves behind.

use vstd::prelude::*;
use crate::cpu::spec_wrap16;
use crate::cpu::Outcome;
use crate::cpu::CPU;
use crate::flags::lemma_flags_round_trip;
use crate::flags::spec_dec8;
use crate::flags::spec_inc8;
use crate::flags::Flags;
use crate::instr::spec_decode;
use crate::instr::Instr;
use crate::instr::Operand;
use crate::instr::Reg8;
use crate::instr::StackPair;
use crate::interrupt::lemma_raised_weighs;
use crate::interrupt::spec_acknowledge;
use crate::interrupt::Interrupt;
use crate::memory::lemma_read_after_write;
use crate::memory::lemma_read_other_after_write;
use crate::memory::lemma_write_wf;
use crate::memory::spec_translate;
use crate::memory::spec_word;
use crate::memory::MemoryView;
use crate::memory::IE_ADDRESS;
use crate::memory::IF_ADDRESS;
use crate::util::LoHi;

verus! {

/// Wrapping to 16 bits adds or takes one span of the address space, or
/// nothing, for a value at most one span outside it.
pub proof fn lemma_wrap16(value: int)
    requires
        -0x1_0000 <= value < 0x2_0000,
    ensures
        spec_wrap16(value) == if value < 0 {
            value + 0x1_0000
        } else if value >= 0x1_0000 {
            value - 0x1_0000
        } else {
            value
        },
{
}

/// Whether the two cells below the stack pointer `sp` store the bytes of
/// `value` when it is pushed: neither lies in ROM or in another place that
/// does not read back what was written to it.
pub open spec fn spec_stack_stores(mem: MemoryView, sp: u16, value: u16) -> bool {
    &&& mem.stores(spec_wrap16(sp - 1), value.spec_hi())
    &&& mem.write(spec_wrap16(sp - 1), value.spec_hi()).stores(
        spec_wrap16(sp - 2),
        value.spec_lo(),
    )
}

/// A word that is pushed where the stack stores it is popped again
/// unchanged, and the stack pointer is back where it was.
#[verifier::rlimit(50)]
pub proof fn lemma_pop_after_push(cpu: CPU, mem: MemoryView, value: u16)
    requires
        mem.wf(),
        spec_stack_stores(mem, cpu.stack_pointer, value),
    ensures
        ({
            let (pushed, after) = cpu.spec_push_short(mem, value);
            &&& pushed.stack_pointer == spec_wrap16(cpu.stack_pointer - 2)
            &&& after.read(spec_wrap16(cpu.stack_pointer - 1)) == value.spec_hi()
            &&& after.read(spec_wrap16(cpu.stack_pointer - 2)) == value.spec_lo()
            &&& pushed.spec_pop_short(after) == (value, cpu)
        }),
{
    let sp = cpu.stack_pointer;
    let sp1 = spec_wrap16(sp - 1);
    let sp2 = spec_wrap16(sp - 2);
    let hi = value.spec_hi();
    let lo = value.spec_lo();
    let first = mem.write(sp1, hi);
    let second = first.write(sp2, lo);
    lemma_wrap16(sp - 1);
    lemma_wrap16(sp - 2);
    lemma_wrap16(sp1 - 1);
    lemma_wrap16(sp2 + 1);
    lemma_wrap16(sp1 + 1);
    assert(spec_wrap16(sp1 - 1) == sp2);
    assert(spec_wrap16(sp2 + 1) == sp1);
    assert(spec_wrap16(sp1 + 1) == sp);
    assert(sp1 >= 0x8000 && sp2 >= 0x8000);
    assert(spec_translate(sp1) != spec_translate(sp2));
    assert(first.wf()) by {
        lemma_write_wf(mem, sp1, hi);
    }
    assert(second.read(sp2) == lo) by {
        lemma_read_after_write(first, sp2, lo);
    }
    assert(second.read(sp1) == hi) by {
        lemma_read_after_write(mem, sp1, hi);
        lemma_read_other_after_write(first, sp2, lo, sp1);
    }
    assert(spec_word(hi, lo) == value);
    let step1 = cpu.spec_push_byte(mem, hi);
    assert(step1 == (CPU { stack_pointer: sp1, ..cpu }, first));
    let step2 = step1.0.spec_push_byte(step1.1, lo);
    assert(step2 == (CPU { stack_pointer: sp2, ..cpu }, second));
    assert(cpu.spec_push_short(mem, value) == step2);
    let pop1 = step2.0.spec_pop_byte(second);
    assert(pop1 == (lo, CPU { stack_pointer: sp1, ..cpu }));
    let pop2 = pop1.1.spec_pop_byte(second);
    assert(pop2 == (hi, cpu));
}

proof fn lemma_execute_inc(cpu: CPU, mem: MemoryView, register: Reg8)
    ensures
        cpu.spec_execute(mem, Instr::Inc(Operand::Reg(register))) == (Outcome {
            cpu: CPU {
                f: spec_inc8(cpu.spec_reg(register), cpu.f).1,
                ..cpu
            }.spec_with_reg(register, spec_inc8(cpu.spec_reg(register), cpu.f).0),
            mem,
            cycles: 4,
        }),
{
    reveal(CPU::spec_execute);
}

proof fn lemma_execute_dec(cpu: CPU, mem: MemoryView, register: Reg8)
    ensures
        cpu.spec_execute(mem, Instr::Dec(Operand::Reg(register))) == (Outcome {
            cpu: CPU {
                f: spec_dec8(cpu.spec_reg(register), cpu.f).1,
                ..cpu
            }.spec_with_reg(register, spec_dec8(cpu.spec_reg(register), cpu.f).0),
            mem,
            cycles: 4,
        }),
{
    reveal(CPU::spec_execute);
}

/// INC of a register followed by DEC of the same register restores the
/// register and changes nothing but the flags. After INC, zero tells
/// whether the register wrapped to 0 and half-carry whether its low nibble
/// overflowed; after DEC, subtract is set, zero tells whether the register
/// is 0 again, half-carry whether the low nibble borrowed, which it does
/// exactly when it had overflowed. Carry is never touched.
#[verifier::rlimit(50)]
pub proof fn lemma_inc_then_dec(cpu: CPU, mem: MemoryView, register: Reg8)
    ensures
        ({
            let value = cpu.spec_reg(register);
            let up = cpu.spec_execute(mem, Instr::Inc(Operand::Reg(register)));
            let down = up.cpu.spec_execute(up.mem, Instr::Dec(Operand::Reg(register)));
            &&& up.cpu.spec_reg(register) == (value + 1) % 256
            &&& up.cpu.f == (Flags {
                zero: value == 255,
                subtract: false,
                half_carry: value % 16 == 15,
                carry: cpu.f.carry,
            })
            &&& down.cpu == (CPU {
                f: Flags {
                    zero: value == 0,
                    subtract: true,
                    half_carry: value % 16 == 15,
                    carry: cpu.f.carry,
                },
                ..cpu
            })
            &&& down.mem == mem
        }),
{
    let value = cpu.spec_reg(register);
    lemma_execute_inc(cpu, mem, register);
    let up = cpu.spec_execute(mem, Instr::Inc(Operand::Reg(register)));
    lemma_execute_dec(up.cpu, up.mem, register);
    let raised = spec_inc8(value, cpu.f).0;
    assert(up.cpu.spec_reg(register) == raised);
    assert(spec_dec8(raised, up.cpu.f).0 == value);
    assert((raised % 16 == 0) == (value % 16 == 15));
}

proof fn lemma_execute_push(cpu: CPU, mem: MemoryView, pair: StackPair)
    ensures
        cpu.spec_execute(mem, Instr::Push(pair)) == (Outcome {
            cpu: cpu.spec_push_short(mem, cpu.spec_pair(pair)).0,
            mem: cpu.spec_push_short(mem, cpu.spec_pair(pair)).1,
            cycles: 16,
        }),
{
    reveal(CPU::spec_execute);
}

proof fn lemma_execute_pop(cpu: CPU, mem: MemoryView, pair: StackPair)
    ensures
        cpu.spec_execute(mem, Instr::Pop(pair)) == (Outcome {
            cpu: cpu.spec_pop_short(mem).1.spec_with_pair(pair, cpu.spec_pop_short(mem).0),
            mem,
            cycles: 12,
        }),
{
    reveal(CPU::spec_execute);
}

/// Putting a pair's own content into the pair changes nothing.
proof fn lemma_pair_rejoin(cpu: CPU, pair: StackPair)
    ensures
        cpu.spec_with_pair(pair, cpu.spec_pair(pair)) == cpu,
{
    lemma_flags_round_trip(cpu.f);
}

/// PUSH of a pair followed by POP of the same pair, on a stack that stores
/// what is pushed, leaves every register, the flags and the stack pointer
/// as they were.
#[verifier::rlimit(50)]
pub proof fn lemma_push_then_pop(cpu: CPU, mem: MemoryView, pair: StackPair)
    requires
        mem.wf(),
        spec_stack_stores(mem, cpu.stack_pointer, cpu.spec_pair(pair)),
    ensures
        ({
            let pushed = cpu.spec_execute(mem, Instr::Push(pair));
            let popped = pushed.cpu.spec_execute(pushed.mem, Instr::Pop(pair));
            &&& pushed.cpu == (CPU { stack_pointer: spec_wrap16(cpu.stack_pointer - 2), ..cpu })
            &&& popped.cpu == cpu
            &&& popped.mem == pushed.mem
        }),
{
    let value = cpu.spec_pair(pair);
    lemma_execute_push(cpu, mem, pair);
    let pushed = cpu.spec_execute(mem, Instr::Push(pair));
    lemma_execute_pop(pushed.cpu, pushed.mem, pair);
    lemma_pop_after_push(cpu, mem, value);
    assert(pushed.cpu.spec_pop_short(pushed.mem) == (value, cpu));
    lemma_pair_rejoin(cpu, pair);
}

proof fn lemma_xor_self(a: u8)
    by (bit_vector)
    ensures
        a ^ a == 0,
{
}

/// XOR A (opcode 0xAF) leaves A zero, the zero flag set and the other
/// flags clear, whatever A and the flags held before.
pub proof fn lemma_xor_a_clears(cpu: CPU, mem: MemoryView)
    requires
        cpu.spec_interrupt(mem) is None,
        mem.read(cpu.program_counter) == 0xAF,
    ensures
        cpu.spec_step(mem) == (Outcome {
            cpu: CPU {
                a: 0,
                f: Flags { zero: true, subtract: false, half_carry: false, carry: false },
                ..cpu.spec_settle().spec_advance(1)
            },
            mem,
            cycles: 4,
        }),
{
    reveal(CPU::spec_execute);
    lemma_xor_self(cpu.a);
}

/// Dispatching leaves the registers as they were, but for the program
/// counter, which is the vector, the stack pointer, which is two lower,
/// and the master enable, which is cleared.
#[verifier::rlimit(50)]
pub proof fn lemma_dispatch_registers(cpu: CPU, mem: MemoryView, interrupt: Interrupt)
    ensures
        cpu.spec_dispatch(mem, interrupt).cpu == (CPU {
            program_counter: interrupt.spec_vector(),
            interrupts: false,
            stack_pointer: spec_wrap16(cpu.stack_pointer - 2),
            ..cpu
        }),
        cpu.spec_dispatch(mem, interrupt).cycles == 80,
{
    let sp1 = spec_wrap16(cpu.stack_pointer - 1);
    lemma_wrap16(cpu.stack_pointer - 1);
    lemma_wrap16(cpu.stack_pointer - 2);
    lemma_wrap16(sp1 - 1);
    assert(spec_wrap16(sp1 - 1) == spec_wrap16(cpu.stack_pointer - 2));
}

/// A write to the request register does not change which stack cells
/// store what is pushed.
#[verifier::rlimit(50)]
proof fn lemma_stack_stores_beside_requests(mem: MemoryView, sp: u16, value: u16, requests: u8)
    requires
        mem.wf(),
        spec_stack_stores(mem, sp, value),
    ensures
        spec_stack_stores(mem.write(IF_ADDRESS, requests), sp, value),
{
}

/// A push to a stack that does not overlap the request register leaves
/// the request register as it read before.
#[verifier::rlimit(50)]
proof fn lemma_push_beside_requests(cpu: CPU, mem: MemoryView, value: u16)
    requires
        mem.wf(),
        spec_stack_stores(mem, cpu.stack_pointer, value),
        spec_wrap16(cpu.stack_pointer - 1) != IF_ADDRESS,
        spec_wrap16(cpu.stack_pointer - 2) != IF_ADDRESS,
    ensures
        cpu.spec_push_short(mem, value).1.read(IF_ADDRESS) == mem.read(IF_ADDRESS),
{
    let sp1 = spec_wrap16(cpu.stack_pointer - 1);
    let sp2 = spec_wrap16(cpu.stack_pointer - 2);
    let first = mem.write(sp1, value.spec_hi());
    lemma_wrap16(cpu.stack_pointer - 1);
    lemma_wrap16(cpu.stack_pointer - 2);
    lemma_wrap16(sp1 - 1);
    assert(spec_wrap16(sp1 - 1) == sp2);
    assert(cpu.spec_push_short(mem, value).1 == first.write(sp2, value.spec_lo()));
    assert(first.wf()) by {
        lemma_write_wf(mem, sp1, value.spec_hi());
    }
    assert(first.read(IF_ADDRESS) == mem.read(IF_ADDRESS)) by {
        lemma_read_other_after_write(mem, sp1, value.spec_hi(), IF_ADDRESS);
    }
    assert(first.write(sp2, value.spec_lo()).read(IF_ADDRESS) == first.read(IF_ADDRESS)) by {
        lemma_read_other_after_write(first, sp2, value.spec_lo(), IF_ADDRESS);
    }
}

proof fn lemma_cleared_bit_reads_clear(flags: u8, low: u8, cleared: u8, read: u8)
    by (bit_vector)
    requires
        low == flags % 32,
        cleared < 32,
        read == 0xE0 + cleared,
    ensures
        flags / 0x01 % 2 == 1 && low == cleared + 0x01 ==> read / 0x01 % 2 == 0,
        flags / 0x02 % 2 == 1 && low == cleared + 0x02 ==> read / 0x02 % 2 == 0,
        flags / 0x04 % 2 == 1 && low == cleared + 0x04 ==> read / 0x04 % 2 == 0,
        flags / 0x08 % 2 == 1 && low == cleared + 0x08 ==> read / 0x08 % 2 == 0,
        flags / 0x10 % 2 == 1 && low == cleared + 0x10 ==> read / 0x10 % 2 == 0,
        flags / 0x01 % 2 == 0 && low == cleared ==> read / 0x01 % 2 == 0,
        flags / 0x02 % 2 == 0 && low == cleared ==> read / 0x02 % 2 == 0,
        flags / 0x04 % 2 == 0 && low == cleared ==> read / 0x04 % 2 == 0,
        flags / 0x08 % 2 == 0 && low == cleared ==> read / 0x08 % 2 == 0,
        flags / 0x10 % 2 == 0 && low == cleared ==> read / 0x10 % 2 == 0,
{
}

#[verifier::rlimit(50)]
proof fn lemma_clearing_a_bit(flags: u8, interrupt: Interrupt)
    ensures
        !interrupt.spec_raised((0xE0 + spec_acknowledge(flags, interrupt) % 32) as u8),
{
    let low = (flags % 32) as u8;
    let cleared = spec_acknowledge(flags, interrupt);
    lemma_raised_weighs(flags);
    assert(cleared < 32);
    let read = (0xE0 + cleared) as u8;
    lemma_cleared_bit_reads_clear(flags, low, cleared, read);
    match interrupt {
        Interrupt::VBlank => {
            assert(read / 0x01 % 2 == 0);
        },
        Interrupt::LCDStat => {
            assert(read / 0x02 % 2 == 0);
        },
        Interrupt::Timer => {
            assert(read / 0x04 % 2 == 0);
        },
        Interrupt::Serial => {
            assert(read / 0x08 % 2 == 0);
        },
        Interrupt::Joypad => {
            assert(read / 0x10 % 2 == 0);
        },
    }
}

/// Once an interrupt is acknowledged, the request register no longer
/// reads as raising it.
#[verifier::rlimit(50)]
pub proof fn lemma_acknowledged_reads_clear(mem: MemoryView, interrupt: Interrupt)
    requires
        mem.wf(),
    ensures
        !interrupt.spec_raised(
            mem.write(IF_ADDRESS, spec_acknowledge(mem.read(IF_ADDRESS), interrupt)).read(
                IF_ADDRESS,
            ),
        ),
{
    let requested = mem.read(IF_ADDRESS);
    let cleared = spec_acknowledge(requested, interrupt);
    lemma_clearing_a_bit(requested, interrupt);
    assert(mem.write(IF_ADDRESS, cleared).read(IF_ADDRESS) == 0xE0 + cleared % 32);
}

/// When the V-blank interrupt is requested and enabled and the master
/// enable is set, the step serves it whatever else is pending: execution
/// continues at 0x0040 with the master enable cleared, at the dispatch
/// cost. On a stack that stores what is pushed and does not overlap the
/// request register, the old program counter then lies below the old stack
/// pointer, high byte uppermost, and the V-blank request is cleared.
#[verifier::rlimit(50)]
pub proof fn lemma_vblank_dispatch(cpu: CPU, mem: MemoryView)
    requires
        mem.wf(),
        cpu.interrupts,
        Interrupt::VBlank.spec_raised(mem.read(IF_ADDRESS)),
        Interrupt::VBlank.spec_raised(mem.read(IE_ADDRESS)),
    ensures
        ({
            let out = cpu.spec_step(mem);
            let sp = cpu.stack_pointer;
            &&& out.cpu == (CPU {
                program_counter: 0x0040,
                interrupts: false,
                stack_pointer: spec_wrap16(sp - 2),
                ..cpu
            })
            &&& out.cycles == 80
            &&& spec_stack_stores(mem, sp, cpu.program_counter) && spec_wrap16(sp - 1) != IF_ADDRESS
                && spec_wrap16(sp - 2) != IF_ADDRESS ==> {
                &&& out.mem.read(spec_wrap16(sp - 1)) == cpu.program_counter.spec_hi()
                &&& out.mem.read(spec_wrap16(sp - 2)) == cpu.program_counter.spec_lo()
                &&& !Interrupt::VBlank.spec_raised(out.mem.read(IF_ADDRESS))
            }
        }),
{
    let sp = cpu.stack_pointer;
    let pc = cpu.program_counter;
    let cleared = spec_acknowledge(mem.read(IF_ADDRESS), Interrupt::VBlank);
    let acknowledged = mem.write(IF_ADDRESS, cleared);
    assert(cpu.spec_interrupt(mem) == Some(Interrupt::VBlank));
    assert(cpu.spec_step(mem) == cpu.spec_dispatch(mem, Interrupt::VBlank));
    lemma_dispatch_registers(cpu, mem, Interrupt::VBlank);
    assert(cpu.spec_step(mem).mem == cpu.spec_push_short(acknowledged, pc).1);
    if spec_stack_stores(mem, sp, pc) && spec_wrap16(sp - 1) != IF_ADDRESS && spec_wrap16(sp - 2)
        != IF_ADDRESS {
        lemma_write_wf(mem, IF_ADDRESS, cleared);
        lemma_stack_stores_beside_requests(mem, sp, pc, cleared);
        lemma_pop_after_push(cpu, acknowledged, pc);
        lemma_push_beside_requests(cpu, acknowledged, pc);
        lemma_acknowledged_reads_clear(mem, Interrupt::VBlank);
    }
}

#[verifier::rlimit(40)]
proof fn lemma_load_frame(cpu: CPU, mem: MemoryView, instr: Instr)
    requires
        CPU::spec_is_load(instr),
    ensures
        instr != Instr::DisableInterrupts ==> cpu.spec_execute(mem, instr).cpu.interrupts
            == cpu.interrupts,
        instr != Instr::EnableInterrupts ==> cpu.spec_execute(
            mem,
            instr,
        ).cpu.transition_enable_interrupts == cpu.transition_enable_interrupts,
        mem.wf() ==> cpu.spec_execute(mem, instr).mem.wf(),
        4 <= cpu.spec_execute(mem, instr).cycles <= 24,
{
    reveal(CPU::spec_execute);
}

#[verifier::rlimit(40)]
proof fn lemma_transfer_frame(cpu: CPU, mem: MemoryView, instr: Instr)
    requires
        CPU::spec_is_transfer(instr),
    ensures
        instr != Instr::DisableInterrupts ==> cpu.spec_execute(mem, instr).cpu.interrupts
            == cpu.interrupts,
        instr != Instr::EnableInterrupts ==> cpu.spec_execute(
            mem,
            instr,
        ).cpu.transition_enable_interrupts == cpu.transition_enable_interrupts,
        mem.wf() ==> cpu.spec_execute(mem, instr).mem.wf(),
        4 <= cpu.spec_execute(mem, instr).cycles <= 24,
{
    reveal(CPU::spec_execute);
}

#[verifier::rlimit(40)]
proof fn lemma_arithmetic_frame(cpu: CPU, mem: MemoryView, instr: Instr)
    requires
        CPU::spec_is_arithmetic(instr),
    ensures
        instr != Instr::DisableInterrupts ==> cpu.spec_execute(mem, instr).cpu.interrupts
            == cpu.interrupts,
        instr != Instr::EnableInterrupts ==> cpu.spec_execute(
            mem,
            instr,
        ).cpu.transition_enable_interrupts == cpu.transition_enable_interrupts,
        mem.wf() ==> cpu.spec_execute(mem, instr).mem.wf(),
        4 <= cpu.spec_execute(mem, instr).cycles <= 24,
{
    reveal(CPU::spec_execute);
}

#[verifier::rlimit(40)]
proof fn lemma_rotate_frame(cpu: CPU, mem: MemoryView, instr: Instr)
    requires
        CPU::spec_is_rotate(instr),
    ensures
        instr != Instr::DisableInterrupts ==> cpu.spec_execute(mem, instr).cpu.interrupts
            == cpu.interrupts,
        instr != Instr::EnableInterrupts ==> cpu.spec_execute(
            mem,
            instr,
        ).cpu.transition_enable_interrupts == cpu.transition_enable_interrupts,
        mem.wf() ==> cpu.spec_execute(mem, instr).mem.wf(),
        4 <= cpu.spec_execute(mem, instr).cycles <= 24,
{
    reveal(CPU::spec_execute);
}

#[verifier::rlimit(40)]
proof fn lemma_jump_frame(cpu: CPU, mem: MemoryView, instr: Instr)
    requires
        CPU::spec_is_jump(instr),
    ensures
        instr != Instr::DisableInterrupts ==> cpu.spec_execute(mem, instr).cpu.interrupts
            == cpu.interrupts,
        instr != Instr::EnableInterrupts ==> cpu.spec_execute(
            mem,
            instr,
        ).cpu.transition_enable_interrupts == cpu.transition_enable_interrupts,
        mem.wf() ==> cpu.spec_execute(mem, instr).mem.wf(),
        4 <= cpu.spec_execute(mem, instr).cycles <= 24,
{
    reveal(CPU::spec_execute);
}

#[verifier::rlimit(40)]
proof fn lemma_call_frame(cpu: CPU, mem: MemoryView, instr: Instr)
    requires
        CPU::spec_is_call(instr),
    ensures
        instr != Instr::DisableInterrupts ==> cpu.spec_execute(mem, instr).cpu.interrupts
            == cpu.interrupts,
        instr != Instr::EnableInterrupts ==> cpu.spec_execute(
            mem,
            instr,
        ).cpu.transition_enable_interrupts == cpu.transition_enable_interrupts,
        mem.wf() ==> cpu.spec_execute(mem, instr).mem.wf(),
        4 <= cpu.spec_execute(mem, instr).cycles <= 24,
{
    reveal(CPU::spec_execute);
}

/// What every instruction respects: none but DI changes the master
/// enable, and none but EI the mark that EI leaves; a well-formed memory
/// stays well-formed; the cost lies between 4 and 24 clock ticks.
pub proof fn lemma_execute_frame(cpu: CPU, mem: MemoryView, instr: Instr)
    ensures
        instr != Instr::DisableInterrupts ==> cpu.spec_execute(mem, instr).cpu.interrupts
            == cpu.interrupts,
        instr != Instr::EnableInterrupts ==> cpu.spec_execute(
            mem,
            instr,
        ).cpu.transition_enable_interrupts == cpu.transition_enable_interrupts,
        mem.wf() ==> cpu.spec_execute(mem, instr).mem.wf(),
        4 <= cpu.spec_execute(mem, instr).cycles <= 24,
{
    if CPU::spec_is_load(instr) {
        lemma_load_frame(cpu, mem, instr);
    } else if CPU::spec_is_transfer(instr) {
        lemma_transfer_frame(cpu, mem, instr);
    } else if CPU::spec_is_arithmetic(instr) {
        lemma_arithmetic_frame(cpu, mem, instr);
    } else if CPU::spec_is_rotate(instr) {
        lemma_rotate_frame(cpu, mem, instr);
    } else if CPU::spec_is_jump(instr) {
        lemma_jump_frame(cpu, mem, instr);
    } else {
        lemma_call_frame(cpu, mem, instr);
    }
}

/// A step that can be taken keeps a well-formed memory well-formed and
/// costs between 4 and 80 clock ticks.
#[verifier::rlimit(50)]
pub proof fn lemma_step_frame(cpu: CPU, mem: MemoryView)
    requires
        cpu.spec_defined(mem),
    ensures
        mem.wf() ==> cpu.spec_step(mem).mem.wf(),
        4 <= cpu.spec_step(mem).cycles <= 80,
{
    match cpu.spec_interrupt(mem) {
        Some(interrupt) => {
            if mem.wf() {
                let acknowledged = mem.write(
                    IF_ADDRESS,
                    spec_acknowledge(mem.read(IF_ADDRESS), interrupt),
                );
                lemma_write_wf(mem, IF_ADDRESS, spec_acknowledge(mem.read(IF_ADDRESS), interrupt));
                let sp1 = spec_wrap16(cpu.stack_pointer - 1);
                lemma_write_wf(acknowledged, sp1, cpu.program_counter.spec_hi());
            }
        },
        None => {
            let instr = spec_decode(mem.read(cpu.program_counter))->Some_0;
            lemma_execute_frame(cpu.spec_settle().spec_advance(1), mem, instr);
        },
    }
}

proof fn lemma_execute_enable(cpu: CPU, mem: MemoryView)
    ensures
        cpu.spec_execute(mem, Instr::EnableInterrupts) == (Outcome {
            cpu: CPU { transition_enable_interrupts: true, ..cpu },
            mem,
            cycles: 4,
        }),
{
    reveal(CPU::spec_execute);
}

/// EI takes effect one instruction late. After the step that executes EI
/// the master enable is still clear and only the mark is set; after the
/// step that follows, the master enable is set, unless that step executed
/// DI, and the mark is gone, unless that step executed EI again.
#[verifier::rlimit(50)]
pub proof fn lemma_ei_latency(cpu: CPU, mem: MemoryView)
    requires
        !cpu.interrupts,
        !cpu.transition_enable_interrupts,
        mem.read(cpu.program_counter) == 0xFB,
    ensures
        ({
            let first = cpu.spec_step(mem);
            let second = first.cpu.spec_step(first.mem);
            let next = spec_decode(mem.read(first.cpu.program_counter));
            &&& first == (Outcome {
                cpu: CPU { transition_enable_interrupts: true, ..cpu.spec_advance(1) },
                mem,
                cycles: 4,
            })
            &&& next != Some(Instr::DisableInterrupts) ==> second.cpu.interrupts
            &&& next != Some(Instr::EnableInterrupts) ==> !second.cpu.transition_enable_interrupts
        }),
{
    assert(spec_decode(0xFB) == Some(Instr::EnableInterrupts));
    lemma_execute_enable(cpu.spec_advance(1), mem);
    let first = cpu.spec_step(mem);
    assert(first.cpu == (CPU { transition_enable_interrupts: true, ..cpu.spec_advance(1) }));
    assert(first.cpu.spec_interrupt(mem) is None);
    let settled = first.cpu.spec_settle();
    assert(settled.interrupts && !settled.transition_enable_interrupts);
    let next = spec_decode(mem.read(first.cpu.program_counter));
    if next is Some {
        lemma_execute_frame(settled.spec_advance(1), mem, next->Some_0);
    }
}

} // verus!
