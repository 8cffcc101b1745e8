//! The processor: its registers, the steps its instructions are made of,
//! and the fetch-decode-execute cycle with interrupt dispatch.

use vstd::prelude::*;
use vstd::pervasive::unreached;
use crate::flags::add16;
use crate::flags::add_sp;
use crate::flags::add8;
use crate::flags::spec_add16;
use crate::flags::spec_add8;
use crate::flags::spec_add_sp;
use crate::flags::spec_and8;
use crate::flags::spec_bit_set;
use crate::flags::spec_dec8;
use crate::flags::spec_inc8;
use crate::flags::spec_or8;
use crate::flags::spec_rotate_left;
use crate::flags::spec_rotate_right;
use crate::flags::spec_shift_flags;
use crate::flags::spec_sub8;
use crate::flags::spec_swap;
use crate::flags::spec_xor8;
use crate::flags::sub8;
use crate::flags::Flags;
use crate::instr::decode;
use crate::instr::decode_cb;
use crate::instr::spec_decode_cb;
use crate::instr::AluOp;
use crate::instr::CbInstr;
use crate::instr::Condition;
use crate::instr::Instr;
use crate::instr::Operand;
use crate::instr::Pointer;
use crate::instr::Reg16;
use crate::instr::Reg8;
use crate::instr::StackPair;
use crate::memory::next_address;
use crate::memory::spec_signed;
use crate::memory::spec_word;
use crate::memory::Memory;
use crate::memory::MemoryView;
use crate::util::LoHi;

verus! {

/// The processor's state: eight 8-bit registers, of which F holds the
/// flags, the stack pointer, the program counter, the master interrupt
/// enable, and the mark that EI leaves for the step after it.
#[derive(Clone, Copy, Debug, PartialEq, Eq, Structural)]
pub struct CPU {
    pub a: u8,
    pub f: Flags,
    pub b: u8,
    pub c: u8,
    pub d: u8,
    pub e: u8,
    pub h: u8,
    pub l: u8,
    pub stack_pointer: u16,
    pub program_counter: u16,
    /// Set by EI; the next step that fetches turns it into `interrupts`.
    pub transition_enable_interrupts: bool,
    /// The master interrupt enable (IME).
    pub interrupts: bool,
}

/// The 16-bit value that `value` is congruent to.
pub open spec fn spec_wrap16(value: int) -> u16 {
    (value % 0x1_0000) as u16
}

/// Whether the flags meet the condition.
pub open spec fn spec_holds(condition: Condition, flags: Flags) -> bool {
    match condition {
        Condition::NotZero => !flags.zero,
        Condition::Zero => flags.zero,
        Condition::NotCarry => !flags.carry,
        Condition::Carry => flags.carry,
    }
}

/// What an arithmetic or logic operation leaves in A and in the flags. CP
/// subtracts for the flags alone and leaves A.
pub open spec fn spec_alu(op: AluOp, a: u8, value: u8, flags: Flags) -> (u8, Flags) {
    match op {
        AluOp::Add => spec_add8(a, value, false),
        AluOp::Adc => spec_add8(a, value, flags.carry),
        AluOp::Sub => spec_sub8(a, value, false),
        AluOp::Sbc => spec_sub8(a, value, flags.carry),
        AluOp::And => spec_and8(a, value),
        AluOp::Xor => spec_xor8(a, value),
        AluOp::Or => spec_or8(a, value),
        AluOp::Cp => (a, spec_sub8(a, value, false).1),
    }
}

impl CPU {
    pub open spec fn spec_hl(self) -> u16 {
        spec_word(self.h, self.l)
    }

    pub open spec fn spec_bc(self) -> u16 {
        spec_word(self.b, self.c)
    }

    pub open spec fn spec_de(self) -> u16 {
        spec_word(self.d, self.e)
    }

    pub open spec fn spec_af(self) -> u16 {
        spec_word(self.a, self.f.spec_bits())
    }

    /// The content of an 8-bit register.
    pub open spec fn spec_reg(self, register: Reg8) -> u8 {
        match register {
            Reg8::A => self.a,
            Reg8::B => self.b,
            Reg8::C => self.c,
            Reg8::D => self.d,
            Reg8::E => self.e,
            Reg8::H => self.h,
            Reg8::L => self.l,
        }
    }

    /// The state with an 8-bit register replaced.
    pub open spec fn spec_with_reg(self, register: Reg8, value: u8) -> CPU {
        match register {
            Reg8::A => CPU { a: value, ..self },
            Reg8::B => CPU { b: value, ..self },
            Reg8::C => CPU { c: value, ..self },
            Reg8::D => CPU { d: value, ..self },
            Reg8::E => CPU { e: value, ..self },
            Reg8::H => CPU { h: value, ..self },
            Reg8::L => CPU { l: value, ..self },
        }
    }

    /// The content of a 16-bit register.
    pub open spec fn spec_wide(self, register: Reg16) -> u16 {
        match register {
            Reg16::BC => self.spec_bc(),
            Reg16::DE => self.spec_de(),
            Reg16::HL => self.spec_hl(),
            Reg16::SP => self.stack_pointer,
        }
    }

    /// The state with a 16-bit register replaced: its high byte goes to the
    /// pair's first register, its low byte to the second.
    pub open spec fn spec_with_wide(self, register: Reg16, value: u16) -> CPU {
        match register {
            Reg16::BC => CPU { b: value.spec_hi(), c: value.spec_lo(), ..self },
            Reg16::DE => CPU { d: value.spec_hi(), e: value.spec_lo(), ..self },
            Reg16::HL => CPU { h: value.spec_hi(), l: value.spec_lo(), ..self },
            Reg16::SP => CPU { stack_pointer: value, ..self },
        }
    }

    /// The content of a pair that can be pushed. The low byte of AF is the
    /// flag byte.
    pub open spec fn spec_pair(self, pair: StackPair) -> u16 {
        match pair {
            StackPair::BC => self.spec_bc(),
            StackPair::DE => self.spec_de(),
            StackPair::HL => self.spec_hl(),
            StackPair::AF => self.spec_af(),
        }
    }

    /// The state with a pair replaced. The flags take the high four bits of
    /// the low byte given to AF.
    pub open spec fn spec_with_pair(self, pair: StackPair, value: u16) -> CPU {
        match pair {
            StackPair::BC => CPU { b: value.spec_hi(), c: value.spec_lo(), ..self },
            StackPair::DE => CPU { d: value.spec_hi(), e: value.spec_lo(), ..self },
            StackPair::HL => CPU { h: value.spec_hi(), l: value.spec_lo(), ..self },
            StackPair::AF => CPU {
                a: value.spec_hi(),
                f: Flags::spec_from_bits(value.spec_lo()),
                ..self
            },
        }
    }

    /// The state with the program counter moved by `distance`, wrapping at
    /// both ends of the address space.
    pub open spec fn spec_advance(self, distance: int) -> CPU {
        CPU { program_counter: spec_wrap16(self.program_counter + distance), ..self }
    }

    /// The state and memory after `value` is pushed: the stack pointer
    /// steps down, then the byte is written where it points.
    pub open spec fn spec_push_byte(self, mem: MemoryView, value: u8) -> (CPU, MemoryView) {
        let sp = spec_wrap16(self.stack_pointer - 1);
        (CPU { stack_pointer: sp, ..self }, mem.write(sp, value))
    }

    /// The state and memory after `value` is pushed, high byte first.
    pub open spec fn spec_push_short(self, mem: MemoryView, value: u16) -> (CPU, MemoryView) {
        let (cpu, mem) = self.spec_push_byte(mem, value.spec_hi());
        cpu.spec_push_byte(mem, value.spec_lo())
    }

    /// The byte popped and the state after it: the byte is read where the
    /// stack pointer points, then the stack pointer steps up.
    pub open spec fn spec_pop_byte(self, mem: MemoryView) -> (u8, CPU) {
        (
            mem.read(self.stack_pointer),
            CPU { stack_pointer: spec_wrap16(self.stack_pointer + 1), ..self },
        )
    }

    /// The word popped, low byte first, and the state after it.
    pub open spec fn spec_pop_short(self, mem: MemoryView) -> (u16, CPU) {
        let (lo, cpu) = self.spec_pop_byte(mem);
        let (hi, cpu) = cpu.spec_pop_byte(mem);
        (spec_word(hi, lo), cpu)
    }

    /// The state after power-up, as the boot program leaves it.
    pub fn new() -> (cpu: CPU)
        ensures
            cpu == (CPU {
                a: 0x01,
                f: Flags { zero: true, subtract: false, half_carry: true, carry: true },
                b: 0x00,
                c: 0x13,
                d: 0x00,
                e: 0xd8,
                h: 0x01,
                l: 0x4d,
                stack_pointer: 0xfffe,
                program_counter: 0x100,
                transition_enable_interrupts: false,
                interrupts: true,
            }),
            cpu.f == Flags::spec_from_bits(0xb0),
    {
        CPU {
            a: 0x01,
            f: Flags::from_bits_truncate(0xb0),
            b: 0x00,
            c: 0x13,
            d: 0x00,
            e: 0xd8,
            h: 0x01,
            l: 0x4d,
            stack_pointer: 0xfffe,
            program_counter: 0x100,
            transition_enable_interrupts: false,
            interrupts: true,
        }
    }

    pub fn hl(&self) -> (word: u16)
        ensures
            word == self.spec_hl(),
    {
        self.h as u16 * 256 + self.l as u16
    }

    pub fn af(&self) -> (word: u16)
        ensures
            word == self.spec_af(),
    {
        self.a as u16 * 256 + self.f.bits() as u16
    }

    pub fn bc(&self) -> (word: u16)
        ensures
            word == self.spec_bc(),
    {
        self.b as u16 * 256 + self.c as u16
    }

    pub fn de(&self) -> (word: u16)
        ensures
            word == self.spec_de(),
    {
        self.d as u16 * 256 + self.e as u16
    }

    /// Reads an 8-bit register.
    pub fn reg(&self, register: Reg8) -> (value: u8)
        ensures
            value == self.spec_reg(register),
    {
        match register {
            Reg8::A => self.a,
            Reg8::B => self.b,
            Reg8::C => self.c,
            Reg8::D => self.d,
            Reg8::E => self.e,
            Reg8::H => self.h,
            Reg8::L => self.l,
        }
    }

    /// Writes an 8-bit register.
    pub fn set_reg(&mut self, register: Reg8, value: u8)
        ensures
            *final(self) == old(self).spec_with_reg(register, value),
    {
        match register {
            Reg8::A => {
                self.a = value;
            },
            Reg8::B => {
                self.b = value;
            },
            Reg8::C => {
                self.c = value;
            },
            Reg8::D => {
                self.d = value;
            },
            Reg8::E => {
                self.e = value;
            },
            Reg8::H => {
                self.h = value;
            },
            Reg8::L => {
                self.l = value;
            },
        }
    }

    /// Reads a 16-bit register.
    pub fn wide(&self, register: Reg16) -> (value: u16)
        ensures
            value == self.spec_wide(register),
    {
        match register {
            Reg16::BC => self.bc(),
            Reg16::DE => self.de(),
            Reg16::HL => self.hl(),
            Reg16::SP => self.stack_pointer,
        }
    }

    /// Writes a 16-bit register.
    pub fn set_wide(&mut self, register: Reg16, value: u16)
        ensures
            *final(self) == old(self).spec_with_wide(register, value),
    {
        match register {
            Reg16::BC => {
                self.b = value.hi();
                self.c = value.lo();
            },
            Reg16::DE => {
                self.d = value.hi();
                self.e = value.lo();
            },
            Reg16::HL => {
                self.h = value.hi();
                self.l = value.lo();
            },
            Reg16::SP => {
                self.stack_pointer = value;
            },
        }
    }

    /// Reads a pair that can be pushed.
    pub fn pair(&self, pair: StackPair) -> (value: u16)
        ensures
            value == self.spec_pair(pair),
    {
        match pair {
            StackPair::BC => self.bc(),
            StackPair::DE => self.de(),
            StackPair::HL => self.hl(),
            StackPair::AF => self.af(),
        }
    }

    /// Writes a pair that can be pushed.
    pub fn set_pair(&mut self, pair: StackPair, value: u16)
        ensures
            *final(self) == old(self).spec_with_pair(pair, value),
    {
        match pair {
            StackPair::BC => {
                self.b = value.hi();
                self.c = value.lo();
            },
            StackPair::DE => {
                self.d = value.hi();
                self.e = value.lo();
            },
            StackPair::HL => {
                self.h = value.hi();
                self.l = value.lo();
            },
            StackPair::AF => {
                self.a = value.hi();
                self.f = Flags::from_bits_truncate(value.lo());
            },
        }
    }

    /// Whether the flags meet the condition.
    pub fn holds(&self, condition: Condition) -> (met: bool)
        ensures
            met == spec_holds(condition, self.f),
    {
        match condition {
            Condition::NotZero => !self.f.zero,
            Condition::Zero => self.f.zero,
            Condition::NotCarry => !self.f.carry,
            Condition::Carry => self.f.carry,
        }
    }

    /// Moves the program counter by a signed distance, wrapping at both
    /// ends of the address space.
    pub fn relative_jump(&mut self, rel_target: i8)
        ensures
            *final(self) == old(self).spec_advance(rel_target as int),
    {
        let target: i32 = self.program_counter as i32 + rel_target as i32 + 0x1_0000;
        self.program_counter = (target % 0x1_0000) as u16;
    }

    /// Pushes a word, high byte first.
    pub fn push_short(&mut self, memory: &mut Memory, value: u16)
        requires
            old(memory).wf(),
        ensures
            final(memory).wf(),
            (*final(self), final(memory)@) == old(self).spec_push_short(old(memory)@, value),
    {
        self.push_byte(memory, value.hi());
        self.push_byte(memory, value.lo());
    }

    /// Steps the stack pointer down and writes a byte where it points.
    pub fn push_byte(&mut self, memory: &mut Memory, value: u8)
        requires
            old(memory).wf(),
        ensures
            final(memory).wf(),
            (*final(self), final(memory)@) == old(self).spec_push_byte(old(memory)@, value),
    {
        self.stack_pointer = if self.stack_pointer == 0 {
            0xFFFF
        } else {
            self.stack_pointer - 1
        };
        memory.write_byte(self.stack_pointer, value);
    }

    /// Pops a word, low byte first.
    pub fn pop_short(&mut self, memory: &Memory) -> (value: u16)
        requires
            memory.wf(),
        ensures
            (value, *final(self)) == old(self).spec_pop_short(memory@),
    {
        let lo: u8 = self.pop_byte(memory);
        let hi: u8 = self.pop_byte(memory);
        hi as u16 * 256 + lo as u16
    }

    /// Reads the byte the stack pointer points at and steps it up.
    pub fn pop_byte(&mut self, memory: &Memory) -> (value: u8)
        requires
            memory.wf(),
        ensures
            (value, *final(self)) == old(self).spec_pop_byte(memory@),
    {
        let x: u8 = memory.read_byte(self.stack_pointer);
        self.stack_pointer = next_address(self.stack_pointer);
        x
    }

    /// Reads the word at the program counter and steps over it.
    pub fn read_short_immediate(&mut self, memory: &Memory) -> (value: u16)
        requires
            memory.wf(),
        ensures
            value == memory@.read_short(old(self).program_counter),
            *final(self) == old(self).spec_advance(2),
    {
        let value: u16 = memory.read_short(self.program_counter);
        self.program_counter = next_address(next_address(self.program_counter));
        value
    }

    /// Reads the byte at the program counter and steps over it.
    pub fn read_byte_immediate(&mut self, memory: &Memory) -> (value: u8)
        requires
            memory.wf(),
        ensures
            value == memory@.read(old(self).program_counter),
            *final(self) == old(self).spec_advance(1),
    {
        let value: u8 = memory.read_byte(self.program_counter);
        self.program_counter = next_address(self.program_counter);
        value
    }

    /// Reads the signed byte at the program counter and steps over it.
    pub fn read_signed_byte_immediate(&mut self, memory: &Memory) -> (value: i8)
        requires
            memory.wf(),
        ensures
            value == spec_signed(memory@.read(old(self).program_counter)),
            *final(self) == old(self).spec_advance(1),
    {
        let value: i8 = memory.read_signed_byte(self.program_counter);
        self.program_counter = next_address(self.program_counter);
        value
    }

    /// ADD: adds `value` to A.
    pub fn add_r8(&mut self, value: u8)
        ensures
            *final(self) == (CPU {
                a: spec_add8(old(self).a, value, false).0,
                f: spec_add8(old(self).a, value, false).1,
                ..*old(self)
            }),
    {
        let (result, flags) = add8(self.a, value, false);
        self.a = result;
        self.f = flags;
    }

    /// ADC: adds `value` and the carry flag to A.
    pub fn adc_r8(&mut self, value: u8)
        ensures
            *final(self) == (CPU {
                a: spec_add8(old(self).a, value, old(self).f.carry).0,
                f: spec_add8(old(self).a, value, old(self).f.carry).1,
                ..*old(self)
            }),
    {
        let (result, flags) = add8(self.a, value, self.f.carry);
        self.a = result;
        self.f = flags;
    }

    /// SUB: subtracts `value` from A.
    pub fn sub_r8(&mut self, value: u8)
        ensures
            *final(self) == (CPU {
                a: spec_sub8(old(self).a, value, false).0,
                f: spec_sub8(old(self).a, value, false).1,
                ..*old(self)
            }),
    {
        let (result, flags) = sub8(self.a, value, false);
        self.a = result;
        self.f = flags;
    }

    /// SBC: subtracts `value` and the carry flag from A.
    pub fn sbc_r8(&mut self, value: u8)
        ensures
            *final(self) == (CPU {
                a: spec_sub8(old(self).a, value, old(self).f.carry).0,
                f: spec_sub8(old(self).a, value, old(self).f.carry).1,
                ..*old(self)
            }),
    {
        let (result, flags) = sub8(self.a, value, self.f.carry);
        self.a = result;
        self.f = flags;
    }

    /// AND: keeps in A the bits that `value` has too.
    pub fn and_r8(&mut self, value: u8)
        ensures
            *final(self) == (CPU {
                a: spec_and8(old(self).a, value).0,
                f: spec_and8(old(self).a, value).1,
                ..*old(self)
            }),
    {
        self.a = self.a & value;
        self.f = Flags { zero: self.a == 0, subtract: false, half_carry: true, carry: false };
    }

    /// XOR: flips in A the bits that `value` has.
    pub fn xor_r8(&mut self, value: u8)
        ensures
            *final(self) == (CPU {
                a: spec_xor8(old(self).a, value).0,
                f: spec_xor8(old(self).a, value).1,
                ..*old(self)
            }),
    {
        self.a = self.a ^ value;
        self.f = Flags { zero: self.a == 0, subtract: false, half_carry: false, carry: false };
    }

    /// OR: sets in A the bits that `value` has.
    pub fn or_r8(&mut self, value: u8)
        ensures
            *final(self) == (CPU {
                a: spec_or8(old(self).a, value).0,
                f: spec_or8(old(self).a, value).1,
                ..*old(self)
            }),
    {
        self.a = self.a | value;
        self.f = Flags { zero: self.a == 0, subtract: false, half_carry: false, carry: false };
    }

    /// CP: sets the flags as SUB would and leaves A.
    pub fn cp_r8(&mut self, value: u8)
        ensures
            *final(self) == (CPU { f: spec_sub8(old(self).a, value, false).1, ..*old(self) }),
    {
        let (_, flags) = sub8(self.a, value, false);
        self.f = flags;
    }

    /// Applies an arithmetic or logic operation to A and `value`.
    pub fn alu(&mut self, op: AluOp, value: u8)
        ensures
            *final(self) == (CPU {
                a: spec_alu(op, old(self).a, value, old(self).f).0,
                f: spec_alu(op, old(self).a, value, old(self).f).1,
                ..*old(self)
            }),
    {
        match op {
            AluOp::Add => self.add_r8(value),
            AluOp::Adc => self.adc_r8(value),
            AluOp::Sub => self.sub_r8(value),
            AluOp::Sbc => self.sbc_r8(value),
            AluOp::And => self.and_r8(value),
            AluOp::Xor => self.xor_r8(value),
            AluOp::Or => self.or_r8(value),
            AluOp::Cp => self.cp_r8(value),
        }
    }

    /// ADD HL,rr: adds a 16-bit register to HL.
    pub fn add_hl_r16(&mut self, register: u16)
        ensures
            *final(self) == (CPU {
                h: spec_add16(old(self).spec_hl(), register, old(self).f).0.spec_hi(),
                l: spec_add16(old(self).spec_hl(), register, old(self).f).0.spec_lo(),
                f: spec_add16(old(self).spec_hl(), register, old(self).f).1,
                ..*old(self)
            }),
    {
        let (val, flags) = add16(self.hl(), register, self.f);
        self.h = val.hi();
        self.l = val.lo();
        self.f = flags;
    }

    /// RST: pushes the program counter and continues at `value`.
    pub fn rst(&mut self, value: u16, memory: &mut Memory)
        requires
            old(memory).wf(),
        ensures
            final(memory).wf(),
            final(memory)@ == old(self).spec_push_short(
                old(memory)@,
                old(self).program_counter,
            ).1,
            *final(self) == (CPU {
                program_counter: value,
                ..old(self).spec_push_short(old(memory)@, old(self).program_counter).0
            }),
    {
        let pc: u16 = self.program_counter;
        self.push_short(memory, pc);
        self.program_counter = value;
    }

    /// BIT: sets the zero flag when bit `at` of `register` is clear,
    /// clears subtract, sets half-carry, and keeps carry.
    pub fn test_bit_at_r8(&mut self, register: u8, at: u8)
        requires
            at < 8,
        ensures
            *final(self) == (CPU {
                f: Flags {
                    zero: !spec_bit_set(register, at),
                    subtract: false,
                    half_carry: true,
                    carry: old(self).f.carry,
                },
                ..*old(self)
            }),
    {
        let val: u8 = register & (1u8 << at);
        self.f.zero = val == 0;
        self.f.subtract = false;
        self.f.half_carry = true;
    }
}

/// What one step leaves behind: the processor, the memory, and the clock
/// ticks it took.
pub struct Outcome {
    pub cpu: CPU,
    pub mem: MemoryView,
    pub cycles: int,
}

impl CPU {
    /// The byte an operand holds.
    pub open spec fn spec_read_operand(self, mem: MemoryView, operand: Operand) -> u8 {
        match operand {
            Operand::Reg(register) => self.spec_reg(register),
            Operand::AtHl => mem.read(self.spec_hl()),
        }
    }

    /// The state and memory after `value` is put into an operand.
    pub open spec fn spec_write_operand(self, mem: MemoryView, operand: Operand, value: u8) -> (
        CPU,
        MemoryView,
    ) {
        match operand {
            Operand::Reg(register) => (self.spec_with_reg(register, value), mem),
            Operand::AtHl => (self, mem.write(self.spec_hl(), value)),
        }
    }

    /// The address a pointer holds.
    pub open spec fn spec_pointer(self, pointer: Pointer) -> u16 {
        match pointer {
            Pointer::BC => self.spec_bc(),
            Pointer::DE => self.spec_de(),
            Pointer::HlIncrement => self.spec_hl(),
            Pointer::HlDecrement => self.spec_hl(),
        }
    }

    /// The state after the pointer has taken its step: HL one up or one
    /// down for the two stepping pointers, no change for BC and DE.
    pub open spec fn spec_pointer_step(self, pointer: Pointer) -> CPU {
        match pointer {
            Pointer::BC => self,
            Pointer::DE => self,
            Pointer::HlIncrement => self.spec_with_wide(Reg16::HL, spec_wrap16(self.spec_hl() + 1)),
            Pointer::HlDecrement => self.spec_with_wide(Reg16::HL, spec_wrap16(self.spec_hl() - 1)),
        }
    }

    /// The ticks an instruction takes that costs `plain` on a register and
    /// `indirect` on the byte at HL.
    pub open spec fn spec_cost(operand: Operand, plain: int, indirect: int) -> int {
        if operand is AtHl {
            indirect
        } else {
            plain
        }
    }

    /// The state after an instruction of the second table.
    pub open spec fn spec_execute_cb(self, instr: CbInstr) -> CPU {
        match instr {
            CbInstr::RotateLeft(register) => {
                let (value, out) = spec_rotate_left(self.spec_reg(register));
                CPU { f: spec_shift_flags(out), ..self.spec_with_reg(register, value) }
            },
            CbInstr::RotateRight(register) => {
                let (value, out) = spec_rotate_right(self.spec_reg(register));
                CPU { f: spec_shift_flags(out), ..self.spec_with_reg(register, value) }
            },
            CbInstr::ShiftRight(register) => {
                let value = self.spec_reg(register);
                CPU {
                    f: spec_shift_flags(value % 2 == 1),
                    ..self.spec_with_reg(register, value / 2)
                }
            },
            CbInstr::Swap(register) => {
                let value = spec_swap(self.spec_reg(register));
                CPU {
                    f: Flags { zero: value == 0, subtract: false, half_carry: false, carry: false },
                    ..self.spec_with_reg(register, value)
                }
            },
            CbInstr::Bit(at, register) => CPU {
                f: Flags {
                    zero: !spec_bit_set(self.spec_reg(register), at),
                    subtract: false,
                    half_carry: true,
                    carry: self.f.carry,
                },
                ..self
            },
            CbInstr::Reset(at, register) => self.spec_with_reg(
                register,
                self.spec_reg(register) & !(1u8 << at),
            ),
        }
    }

    /// What an instruction of the primary table leaves behind, when the
    /// program counter stands just behind its opcode.
    #[verifier::opaque]
    pub open spec fn spec_execute(self, mem: MemoryView, instr: Instr) -> Outcome {
        let pc = self.program_counter;
        match instr {
            Instr::Nop => Outcome { cpu: self, mem, cycles: 4 },
            Instr::LoadWide(register) => Outcome {
                cpu: self.spec_advance(2).spec_with_wide(register, mem.read_short(pc)),
                mem,
                cycles: 12,
            },
            Instr::StoreA(pointer) => Outcome {
                cpu: self.spec_pointer_step(pointer),
                mem: mem.write(self.spec_pointer(pointer), self.a),
                cycles: 8,
            },
            Instr::LoadA(pointer) => Outcome {
                cpu: CPU { a: mem.read(self.spec_pointer(pointer)), ..self }.spec_pointer_step(
                    pointer,
                ),
                mem,
                cycles: 8,
            },
            Instr::IncWide(register) => Outcome {
                cpu: self.spec_with_wide(register, spec_wrap16(self.spec_wide(register) + 1)),
                mem,
                cycles: 8,
            },
            Instr::DecWide(register) => Outcome {
                cpu: self.spec_with_wide(register, spec_wrap16(self.spec_wide(register) - 1)),
                mem,
                cycles: 8,
            },
            Instr::Inc(operand) => {
                let (value, flags) = spec_inc8(self.spec_read_operand(mem, operand), self.f);
                let (cpu, mem) = CPU { f: flags, ..self }.spec_write_operand(mem, operand, value);
                Outcome { cpu, mem, cycles: Self::spec_cost(operand, 4, 12) }
            },
            Instr::Dec(operand) => {
                let (value, flags) = spec_dec8(self.spec_read_operand(mem, operand), self.f);
                let (cpu, mem) = CPU { f: flags, ..self }.spec_write_operand(mem, operand, value);
                Outcome { cpu, mem, cycles: Self::spec_cost(operand, 4, 12) }
            },
            Instr::LoadImmediate(operand) => {
                let (cpu, mem) = self.spec_advance(1).spec_write_operand(mem, operand, mem.read(pc));
                Outcome { cpu, mem, cycles: Self::spec_cost(operand, 8, 12) }
            },
            Instr::RotateLeftA => {
                let (value, out) = spec_rotate_left(self.a);
                Outcome { cpu: CPU { a: value, f: spec_shift_flags(out), ..self }, mem, cycles: 4 }
            },
            Instr::RotateRightA => {
                let (value, out) = spec_rotate_right(self.a);
                Outcome { cpu: CPU { a: value, f: spec_shift_flags(out), ..self }, mem, cycles: 4 }
            },
            Instr::StoreSp => Outcome {
                cpu: self.spec_advance(2),
                mem: mem.write_short(mem.read_short(pc), self.stack_pointer),
                cycles: 20,
            },
            Instr::AddHl(register) => {
                let (value, flags) = spec_add16(self.spec_hl(), self.spec_wide(register), self.f);
                Outcome {
                    cpu: CPU { f: flags, ..self }.spec_with_wide(Reg16::HL, value),
                    mem,
                    cycles: 8,
                }
            },
            Instr::JumpRelative => Outcome {
                cpu: self.spec_advance(1).spec_advance(spec_signed(mem.read(pc)) as int),
                mem,
                cycles: 12,
            },
            Instr::JumpRelativeIf(condition) => if spec_holds(condition, self.f) {
                Outcome {
                    cpu: self.spec_advance(1).spec_advance(spec_signed(mem.read(pc)) as int),
                    mem,
                    cycles: 12,
                }
            } else {
                Outcome { cpu: self.spec_advance(1), mem, cycles: 8 }
            },
            Instr::Complement => Outcome {
                cpu: CPU {
                    a: (255 - self.a) as u8,
                    f: Flags { subtract: true, half_carry: true, ..self.f },
                    ..self
                },
                mem,
                cycles: 4,
            },
            Instr::Load(target, source) => {
                let (cpu, mem) = self.spec_write_operand(
                    mem,
                    target,
                    self.spec_read_operand(mem, source),
                );
                Outcome {
                    cpu,
                    mem,
                    cycles: if target is AtHl || source is AtHl {
                        8
                    } else {
                        4
                    },
                }
            },
            Instr::Alu(op, operand) => {
                let (a, flags) = spec_alu(op, self.a, self.spec_read_operand(mem, operand), self.f);
                Outcome { cpu: CPU { a, f: flags, ..self }, mem, cycles: Self::spec_cost(operand, 4, 8) }
            },
            Instr::AluImmediate(op) => {
                let (a, flags) = spec_alu(op, self.a, mem.read(pc), self.f);
                Outcome { cpu: CPU { a, f: flags, ..self.spec_advance(1) }, mem, cycles: 8 }
            },
            Instr::ReturnIf(condition) => if spec_holds(condition, self.f) {
                let (target, cpu) = self.spec_pop_short(mem);
                Outcome { cpu: CPU { program_counter: target, ..cpu }, mem, cycles: 20 }
            } else {
                Outcome { cpu: self, mem, cycles: 8 }
            },
            Instr::Return => {
                let (target, cpu) = self.spec_pop_short(mem);
                Outcome { cpu: CPU { program_counter: target, ..cpu }, mem, cycles: 16 }
            },
            Instr::Pop(pair) => {
                let (value, cpu) = self.spec_pop_short(mem);
                Outcome { cpu: cpu.spec_with_pair(pair, value), mem, cycles: 12 }
            },
            Instr::Push(pair) => {
                let (cpu, mem) = self.spec_push_short(mem, self.spec_pair(pair));
                Outcome { cpu, mem, cycles: 16 }
            },
            Instr::JumpIf(condition) => if spec_holds(condition, self.f) {
                Outcome { cpu: CPU { program_counter: mem.read_short(pc), ..self }, mem, cycles: 16 }
            } else {
                Outcome { cpu: self.spec_advance(2), mem, cycles: 12 }
            },
            Instr::Jump => Outcome {
                cpu: CPU { program_counter: mem.read_short(pc), ..self },
                mem,
                cycles: 16,
            },
            Instr::JumpHl => Outcome {
                cpu: CPU { program_counter: self.spec_hl(), ..self },
                mem,
                cycles: 4,
            },
            Instr::CallIf(condition) => if spec_holds(condition, self.f) {
                let (cpu, after) = self.spec_advance(2).spec_push_short(
                    mem,
                    self.spec_advance(2).program_counter,
                );
                Outcome {
                    cpu: CPU { program_counter: mem.read_short(pc), ..cpu },
                    mem: after,
                    cycles: 24,
                }
            } else {
                Outcome { cpu: self.spec_advance(2), mem, cycles: 12 }
            },
            Instr::Call => {
                let (cpu, after) = self.spec_advance(2).spec_push_short(
                    mem,
                    self.spec_advance(2).program_counter,
                );
                Outcome {
                    cpu: CPU { program_counter: mem.read_short(pc), ..cpu },
                    mem: after,
                    cycles: 24,
                }
            },
            Instr::Restart(target) => {
                let (cpu, after) = self.spec_push_short(mem, pc);
                Outcome {
                    cpu: CPU { program_counter: target as u16, ..cpu },
                    mem: after,
                    cycles: 16,
                }
            },
            Instr::Prefix => Outcome {
                cpu: match spec_decode_cb(mem.read(pc)) {
                    Some(instr) => self.spec_advance(1).spec_execute_cb(instr),
                    None => self.spec_advance(1),
                },
                mem,
                cycles: 8,
            },
            Instr::StoreHigh => Outcome {
                cpu: self.spec_advance(1),
                mem: mem.write((0xFF00 + mem.read(pc)) as u16, self.a),
                cycles: 12,
            },
            Instr::LoadHigh => Outcome {
                cpu: CPU { a: mem.read((0xFF00 + mem.read(pc)) as u16), ..self.spec_advance(1) },
                mem,
                cycles: 12,
            },
            Instr::StoreHighC => Outcome {
                cpu: self,
                mem: mem.write((0xFF00 + self.c) as u16, self.a),
                cycles: 8,
            },
            Instr::AddSp => {
                let (value, flags) = spec_add_sp(self.stack_pointer, spec_signed(mem.read(pc)));
                Outcome {
                    cpu: CPU { stack_pointer: value, f: flags, ..self.spec_advance(1) },
                    mem,
                    cycles: 16,
                }
            },
            Instr::StoreAbsolute => Outcome {
                cpu: self.spec_advance(2),
                mem: mem.write(mem.read_short(pc), self.a),
                cycles: 16,
            },
            Instr::LoadAbsolute => Outcome {
                cpu: CPU { a: mem.read(mem.read_short(pc)), ..self.spec_advance(2) },
                mem,
                cycles: 16,
            },
            Instr::LoadSpHl => Outcome {
                cpu: CPU { stack_pointer: self.spec_hl(), ..self },
                mem,
                cycles: 8,
            },
            Instr::DisableInterrupts => Outcome {
                cpu: CPU { interrupts: false, ..self },
                mem,
                cycles: 4,
            },
            Instr::EnableInterrupts => Outcome {
                cpu: CPU { transition_enable_interrupts: true, ..self },
                mem,
                cycles: 4,
            },
        }
    }

    /// Reads the byte an operand holds.
    pub fn read_operand(&self, memory: &Memory, operand: Operand) -> (value: u8)
        requires
            memory.wf(),
        ensures
            value == self.spec_read_operand(memory@, operand),
    {
        match operand {
            Operand::Reg(register) => self.reg(register),
            Operand::AtHl => memory.read_byte(self.hl()),
        }
    }

    /// Puts `value` into an operand.
    pub fn write_operand(&mut self, memory: &mut Memory, operand: Operand, value: u8)
        requires
            old(memory).wf(),
        ensures
            final(memory).wf(),
            (*final(self), final(memory)@) == old(self).spec_write_operand(
                old(memory)@,
                operand,
                value,
            ),
    {
        match operand {
            Operand::Reg(register) => self.set_reg(register, value),
            Operand::AtHl => memory.write_byte(self.hl(), value),
        }
    }

    /// The address a pointer holds.
    pub fn pointer(&self, pointer: Pointer) -> (address: u16)
        ensures
            address == self.spec_pointer(pointer),
    {
        match pointer {
            Pointer::BC => self.bc(),
            Pointer::DE => self.de(),
            Pointer::HlIncrement => self.hl(),
            Pointer::HlDecrement => self.hl(),
        }
    }

    /// Lets a pointer take its step.
    pub fn pointer_step(&mut self, pointer: Pointer)
        ensures
            *final(self) == old(self).spec_pointer_step(pointer),
    {
        match pointer {
            Pointer::BC => {},
            Pointer::DE => {},
            Pointer::HlIncrement => {
                inc_double_r8(&mut self.h, &mut self.l);
            },
            Pointer::HlDecrement => {
                dec_double_r8(&mut self.h, &mut self.l);
            },
        }
    }

    /// Executes an instruction of the second table and returns its cost.
    pub fn execute_cb(&mut self, instr: CbInstr) -> (cycles: i64)
        requires
            instr matches CbInstr::Bit(at, _) ==> at < 8,
            instr matches CbInstr::Reset(at, _) ==> at < 8,
        ensures
            *final(self) == old(self).spec_execute_cb(instr),
            cycles == 8,
    {
        match instr {
            CbInstr::RotateLeft(register) => {
                let mut value: u8 = self.reg(register);
                let mut flags: Flags = self.f;
                rl_r8(&mut value, &mut flags);
                self.set_reg(register, value);
                self.f = flags;
            },
            CbInstr::RotateRight(register) => {
                let mut value: u8 = self.reg(register);
                let mut flags: Flags = self.f;
                rr_r8(&mut value, &mut flags);
                self.set_reg(register, value);
                self.f = flags;
            },
            CbInstr::ShiftRight(register) => {
                let mut value: u8 = self.reg(register);
                let mut flags: Flags = self.f;
                srl_r8(&mut value, &mut flags);
                self.set_reg(register, value);
                self.f = flags;
            },
            CbInstr::Swap(register) => {
                let mut value: u8 = self.reg(register);
                let mut flags: Flags = self.f;
                swap_r8(&mut value, &mut flags);
                self.set_reg(register, value);
                self.f = flags;
            },
            CbInstr::Bit(at, register) => {
                let value: u8 = self.reg(register);
                self.test_bit_at_r8(value, at);
            },
            CbInstr::Reset(at, register) => {
                let value: u8 = self.reg(register);
                self.set_reg(register, value & !(1u8 << at));
            },
        }
        8
    }

    /// The second table: executes the instruction that `opcode` names there
    /// and returns its cost.
    pub fn cb(&mut self, opcode: u8) -> (cycles: i64)
        requires
            spec_decode_cb(opcode) is Some,
        ensures
            *final(self) == old(self).spec_execute_cb(spec_decode_cb(opcode)->Some_0),
            cycles == 8,
    {
        match decode_cb(opcode) {
            Some(instr) => self.execute_cb(instr),
            None => 8,
        }
    }
}

/// RR: rotates the register right by one bit; carry takes the bit that
/// left, the other flags are cleared.
pub fn rr_r8(register: &mut u8, f: &mut Flags)
    ensures
        *final(register) == spec_rotate_right(*old(register)).0,
        *final(f) == spec_shift_flags(spec_rotate_right(*old(register)).1),
{
    let out: bool = *register % 2 == 1;
    *register = *register / 2 + *register % 2 * 128;
    *f = Flags { zero: false, subtract: false, half_carry: false, carry: out };
}

/// RL: rotates the register left by one bit; carry takes the bit that
/// left, the other flags are cleared.
pub fn rl_r8(register: &mut u8, f: &mut Flags)
    ensures
        *final(register) == spec_rotate_left(*old(register)).0,
        *final(f) == spec_shift_flags(spec_rotate_left(*old(register)).1),
{
    let out: bool = *register >= 128;
    *register = *register % 128 * 2 + *register / 128;
    *f = Flags { zero: false, subtract: false, half_carry: false, carry: out };
}

/// SRL: shifts the register right by one bit; carry takes the bit that
/// left, the other flags are cleared.
pub fn srl_r8(register: &mut u8, f: &mut Flags)
    ensures
        *final(register) == *old(register) / 2,
        *final(f) == spec_shift_flags(*old(register) % 2 == 1),
{
    let out: bool = *register % 2 == 1;
    *register = *register / 2;
    *f = Flags { zero: false, subtract: false, half_carry: false, carry: out };
}

/// SWAP: exchanges the register's nibbles; zero follows the result, the
/// other flags are cleared.
pub fn swap_r8(register: &mut u8, f: &mut Flags)
    ensures
        *final(register) == spec_swap(*old(register)),
        *final(f) == (Flags {
            zero: spec_swap(*old(register)) == 0,
            subtract: false,
            half_carry: false,
            carry: false,
        }),
{
    *register = *register % 16 * 16 + *register / 16;
    *f = Flags { zero: *register == 0, subtract: false, half_carry: false, carry: false };
}

proof fn lemma_half_carry_step(value: u8)
    by (bit_vector)
    ensures
        ((value ^ 1 ^ (if value == 255 { 0u8 } else { (value + 1) as u8 })) & 0x10 == 0x10) == (
        value & 0x0F == 0x0F),
        ((value ^ 1 ^ (if value == 0 { 255u8 } else { (value - 1) as u8 })) & 0x10 == 0x10) == (
        value & 0x0F == 0),
        value & 0x0F == value % 16,
{
}

/// INC: adds one to the register; zero follows the result, subtract is
/// cleared, half-carry is a carry out of bit 3, carry is kept.
pub fn inc_r8(register: &mut u8, flags: &mut Flags)
    ensures
        *final(register) == spec_inc8(*old(register), *old(flags)).0,
        *final(flags) == spec_inc8(*old(register), *old(flags)).1,
{
    let orig: u8 = *register;
    *register = if orig == 255 { 0 } else { orig + 1 };
    proof {
        lemma_half_carry_step(orig);
    }
    flags.zero = *register == 0;
    flags.subtract = false;
    flags.half_carry = (orig ^ 1 ^ *register) & 0x10 == 0x10;
}

/// DEC: takes one from the register; zero follows the result, subtract is
/// set, half-carry is a borrow into bit 3, carry is kept.
pub fn dec_r8(register: &mut u8, flags: &mut Flags)
    ensures
        *final(register) == spec_dec8(*old(register), *old(flags)).0,
        *final(flags) == spec_dec8(*old(register), *old(flags)).1,
{
    let orig: u8 = *register;
    *register = if orig == 0 { 255 } else { orig - 1 };
    proof {
        lemma_half_carry_step(orig);
    }
    flags.zero = *register == 0;
    flags.subtract = true;
    flags.half_carry = (orig ^ 1 ^ *register) & 0x10 == 0x10;
}

/// INC rr: adds one to the word in the two registers, wrapping.
pub fn inc_double_r8(hi_reg: &mut u8, lo_reg: &mut u8)
    ensures
        *final(hi_reg) == spec_wrap16(spec_word(*old(hi_reg), *old(lo_reg)) + 1).spec_hi(),
        *final(lo_reg) == spec_wrap16(spec_word(*old(hi_reg), *old(lo_reg)) + 1).spec_lo(),
{
    let combined: u16 = *hi_reg as u16 * 256 + *lo_reg as u16;
    let val: u16 = next_address(combined);
    *hi_reg = val.hi();
    *lo_reg = val.lo();
}

/// DEC rr: takes one from the word in the two registers, wrapping.
pub fn dec_double_r8(hi_reg: &mut u8, lo_reg: &mut u8)
    ensures
        *final(hi_reg) == spec_wrap16(spec_word(*old(hi_reg), *old(lo_reg)) - 1).spec_hi(),
        *final(lo_reg) == spec_wrap16(spec_word(*old(hi_reg), *old(lo_reg)) - 1).spec_lo(),
{
    let combined: u16 = *hi_reg as u16 * 256 + *lo_reg as u16;
    let val: u16 = if combined == 0 { 0xFFFF } else { combined - 1 };
    *hi_reg = val.hi();
    *lo_reg = val.lo();
}

impl CPU {
    /// NOP: does nothing.
    pub fn op_nop(&mut self, memory: &mut Memory) -> (cycles: i64)
        requires
            old(memory).wf(),
        ensures
            final(memory).wf(),
            (Outcome { cpu: *final(self), mem: final(memory)@, cycles: cycles as int })
                == old(self).spec_execute(old(memory)@, Instr::Nop),
    {
        proof {
            reveal(CPU::spec_execute);
        }
        4
    }

    /// LD rr,d16: loads the word behind the opcode into a 16-bit register.
    pub fn op_load_wide(&mut self, memory: &mut Memory, register: Reg16) -> (cycles: i64)
        requires
            old(memory).wf(),
        ensures
            final(memory).wf(),
            (Outcome { cpu: *final(self), mem: final(memory)@, cycles: cycles as int })
                == old(self).spec_execute(old(memory)@, Instr::LoadWide(register)),
    {
        proof {
            reveal(CPU::spec_execute);
        }
        let value: u16 = self.read_short_immediate(memory);
        self.set_wide(register, value);
        12
    }

    /// LD (BC),A and its kin: writes A where the pointer points.
    pub fn op_store_a(&mut self, memory: &mut Memory, pointer: Pointer) -> (cycles: i64)
        requires
            old(memory).wf(),
        ensures
            final(memory).wf(),
            (Outcome { cpu: *final(self), mem: final(memory)@, cycles: cycles as int })
                == old(self).spec_execute(old(memory)@, Instr::StoreA(pointer)),
    {
        proof {
            reveal(CPU::spec_execute);
        }
        memory.write_byte(self.pointer(pointer), self.a);
        self.pointer_step(pointer);
        8
    }

    /// LD A,(BC) and its kin: reads A from where the pointer points.
    pub fn op_load_a(&mut self, memory: &mut Memory, pointer: Pointer) -> (cycles: i64)
        requires
            old(memory).wf(),
        ensures
            final(memory).wf(),
            (Outcome { cpu: *final(self), mem: final(memory)@, cycles: cycles as int })
                == old(self).spec_execute(old(memory)@, Instr::LoadA(pointer)),
    {
        proof {
            reveal(CPU::spec_execute);
        }
        self.a = memory.read_byte(self.pointer(pointer));
        self.pointer_step(pointer);
        8
    }

    /// INC rr: adds one to a 16-bit register; no flag changes.
    pub fn op_inc_wide(&mut self, memory: &mut Memory, register: Reg16) -> (cycles: i64)
        requires
            old(memory).wf(),
        ensures
            final(memory).wf(),
            (Outcome { cpu: *final(self), mem: final(memory)@, cycles: cycles as int })
                == old(self).spec_execute(old(memory)@, Instr::IncWide(register)),
    {
        proof {
            reveal(CPU::spec_execute);
        }
        let word: u16 = self.wide(register);
        let mut hi: u8 = word.hi();
        let mut lo: u8 = word.lo();
        inc_double_r8(&mut hi, &mut lo);
        self.set_wide(register, hi as u16 * 256 + lo as u16);
        8
    }

    /// DEC rr: takes one from a 16-bit register; no flag changes.
    pub fn op_dec_wide(&mut self, memory: &mut Memory, register: Reg16) -> (cycles: i64)
        requires
            old(memory).wf(),
        ensures
            final(memory).wf(),
            (Outcome { cpu: *final(self), mem: final(memory)@, cycles: cycles as int })
                == old(self).spec_execute(old(memory)@, Instr::DecWide(register)),
    {
        proof {
            reveal(CPU::spec_execute);
        }
        let word: u16 = self.wide(register);
        let mut hi: u8 = word.hi();
        let mut lo: u8 = word.lo();
        dec_double_r8(&mut hi, &mut lo);
        self.set_wide(register, hi as u16 * 256 + lo as u16);
        8
    }

    /// INC r and INC (HL).
    pub fn op_inc(&mut self, memory: &mut Memory, operand: Operand) -> (cycles: i64)
        requires
            old(memory).wf(),
        ensures
            final(memory).wf(),
            (Outcome { cpu: *final(self), mem: final(memory)@, cycles: cycles as int })
                == old(self).spec_execute(old(memory)@, Instr::Inc(operand)),
    {
        proof {
            reveal(CPU::spec_execute);
        }
        let mut value: u8 = self.read_operand(memory, operand);
        inc_r8(&mut value, &mut self.f);
        self.write_operand(memory, operand, value);
        cost(operand, 4, 12)
    }

    /// DEC r and DEC (HL).
    pub fn op_dec(&mut self, memory: &mut Memory, operand: Operand) -> (cycles: i64)
        requires
            old(memory).wf(),
        ensures
            final(memory).wf(),
            (Outcome { cpu: *final(self), mem: final(memory)@, cycles: cycles as int })
                == old(self).spec_execute(old(memory)@, Instr::Dec(operand)),
    {
        proof {
            reveal(CPU::spec_execute);
        }
        let mut value: u8 = self.read_operand(memory, operand);
        dec_r8(&mut value, &mut self.f);
        self.write_operand(memory, operand, value);
        cost(operand, 4, 12)
    }

    /// LD r,d8 and LD (HL),d8.
    pub fn op_load_immediate(&mut self, memory: &mut Memory, operand: Operand) -> (cycles: i64)
        requires
            old(memory).wf(),
        ensures
            final(memory).wf(),
            (Outcome { cpu: *final(self), mem: final(memory)@, cycles: cycles as int })
                == old(self).spec_execute(old(memory)@, Instr::LoadImmediate(operand)),
    {
        proof {
            reveal(CPU::spec_execute);
        }
        let value: u8 = self.read_byte_immediate(memory);
        self.write_operand(memory, operand, value);
        cost(operand, 8, 12)
    }

    /// RLCA and RLA: rotates A left.
    pub fn op_rotate_left_a(&mut self, memory: &mut Memory) -> (cycles: i64)
        requires
            old(memory).wf(),
        ensures
            final(memory).wf(),
            (Outcome { cpu: *final(self), mem: final(memory)@, cycles: cycles as int })
                == old(self).spec_execute(old(memory)@, Instr::RotateLeftA),
    {
        proof {
            reveal(CPU::spec_execute);
        }
        rl_r8(&mut self.a, &mut self.f);
        4
    }

    /// RRCA and RRA: rotates A right.
    pub fn op_rotate_right_a(&mut self, memory: &mut Memory) -> (cycles: i64)
        requires
            old(memory).wf(),
        ensures
            final(memory).wf(),
            (Outcome { cpu: *final(self), mem: final(memory)@, cycles: cycles as int })
                == old(self).spec_execute(old(memory)@, Instr::RotateRightA),
    {
        proof {
            reveal(CPU::spec_execute);
        }
        rr_r8(&mut self.a, &mut self.f);
        4
    }

    /// LD (a16),SP: writes the stack pointer at the address behind the opcode.
    pub fn op_store_sp(&mut self, memory: &mut Memory) -> (cycles: i64)
        requires
            old(memory).wf(),
        ensures
            final(memory).wf(),
            (Outcome { cpu: *final(self), mem: final(memory)@, cycles: cycles as int })
                == old(self).spec_execute(old(memory)@, Instr::StoreSp),
    {
        proof {
            reveal(CPU::spec_execute);
        }
        let destination: u16 = self.read_short_immediate(memory);
        memory.write_short(destination, self.stack_pointer);
        20
    }

    /// ADD HL,rr.
    pub fn op_add_hl(&mut self, memory: &mut Memory, register: Reg16) -> (cycles: i64)
        requires
            old(memory).wf(),
        ensures
            final(memory).wf(),
            (Outcome { cpu: *final(self), mem: final(memory)@, cycles: cycles as int })
                == old(self).spec_execute(old(memory)@, Instr::AddHl(register)),
    {
        proof {
            reveal(CPU::spec_execute);
        }
        let val: u16 = self.wide(register);
        self.add_hl_r16(val);
        8
    }

    /// JR r8: jumps by the signed byte behind the opcode.
    pub fn op_jump_relative(&mut self, memory: &mut Memory) -> (cycles: i64)
        requires
            old(memory).wf(),
        ensures
            final(memory).wf(),
            (Outcome { cpu: *final(self), mem: final(memory)@, cycles: cycles as int })
                == old(self).spec_execute(old(memory)@, Instr::JumpRelative),
    {
        proof {
            reveal(CPU::spec_execute);
        }
        let rel_target: i8 = self.read_signed_byte_immediate(memory);
        self.relative_jump(rel_target);
        12
    }

    /// JR cc,r8: jumps by the signed byte behind the opcode if the condition holds.
    pub fn op_jump_relative_if(&mut self, memory: &mut Memory, condition: Condition) -> (cycles: i64)
        requires
            old(memory).wf(),
        ensures
            final(memory).wf(),
            (Outcome { cpu: *final(self), mem: final(memory)@, cycles: cycles as int })
                == old(self).spec_execute(old(memory)@, Instr::JumpRelativeIf(condition)),
    {
        proof {
            reveal(CPU::spec_execute);
        }
        let rel_target: i8 = self.read_signed_byte_immediate(memory);
        if self.holds(condition) {
            self.relative_jump(rel_target);
            12
        } else {
            8
        }
    }

    /// CPL: flips every bit of A; sets subtract and half-carry.
    pub fn op_complement(&mut self, memory: &mut Memory) -> (cycles: i64)
        requires
            old(memory).wf(),
        ensures
            final(memory).wf(),
            (Outcome { cpu: *final(self), mem: final(memory)@, cycles: cycles as int })
                == old(self).spec_execute(old(memory)@, Instr::Complement),
    {
        proof {
            reveal(CPU::spec_execute);
        }
        self.a = 255 - self.a;
        self.f.subtract = true;
        self.f.half_carry = true;
        4
    }

    /// LD between two registers, or a register and the byte at HL.
    pub fn op_load(&mut self, memory: &mut Memory, target: Operand, source: Operand) -> (cycles: i64)
        requires
            old(memory).wf(),
        ensures
            final(memory).wf(),
            (Outcome { cpu: *final(self), mem: final(memory)@, cycles: cycles as int })
                == old(self).spec_execute(old(memory)@, Instr::Load(target, source)),
    {
        proof {
            reveal(CPU::spec_execute);
        }
        let value: u8 = self.read_operand(memory, source);
        self.write_operand(memory, target, value);
        match (target, source) {
            (Operand::Reg(_), Operand::Reg(_)) => 4,
            _ => 8,
        }
    }

    /// ADD, ADC, SUB, SBC, AND, XOR, OR or CP with a register or the byte at HL.
    pub fn op_alu(&mut self, memory: &mut Memory, op: AluOp, operand: Operand) -> (cycles: i64)
        requires
            old(memory).wf(),
        ensures
            final(memory).wf(),
            (Outcome { cpu: *final(self), mem: final(memory)@, cycles: cycles as int })
                == old(self).spec_execute(old(memory)@, Instr::Alu(op, operand)),
    {
        proof {
            reveal(CPU::spec_execute);
        }
        let val: u8 = self.read_operand(memory, operand);
        self.alu(op, val);
        cost(operand, 4, 8)
    }

    /// ADD, ADC, SUB, SBC, AND, XOR, OR or CP with the byte behind the opcode.
    pub fn op_alu_immediate(&mut self, memory: &mut Memory, op: AluOp) -> (cycles: i64)
        requires
            old(memory).wf(),
        ensures
            final(memory).wf(),
            (Outcome { cpu: *final(self), mem: final(memory)@, cycles: cycles as int })
                == old(self).spec_execute(old(memory)@, Instr::AluImmediate(op)),
    {
        proof {
            reveal(CPU::spec_execute);
        }
        let value: u8 = self.read_byte_immediate(memory);
        self.alu(op, value);
        8
    }

    /// RET cc: pops the program counter if the condition holds.
    pub fn op_return_if(&mut self, memory: &mut Memory, condition: Condition) -> (cycles: i64)
        requires
            old(memory).wf(),
        ensures
            final(memory).wf(),
            (Outcome { cpu: *final(self), mem: final(memory)@, cycles: cycles as int })
                == old(self).spec_execute(old(memory)@, Instr::ReturnIf(condition)),
    {
        proof {
            reveal(CPU::spec_execute);
        }
        if self.holds(condition) {
            self.program_counter = self.pop_short(memory);
            20
        } else {
            8
        }
    }

    /// RET: pops the program counter.
    pub fn op_return(&mut self, memory: &mut Memory) -> (cycles: i64)
        requires
            old(memory).wf(),
        ensures
            final(memory).wf(),
            (Outcome { cpu: *final(self), mem: final(memory)@, cycles: cycles as int })
                == old(self).spec_execute(old(memory)@, Instr::Return),
    {
        proof {
            reveal(CPU::spec_execute);
        }
        self.program_counter = self.pop_short(memory);
        16
    }

    /// POP rr.
    pub fn op_pop(&mut self, memory: &mut Memory, pair: StackPair) -> (cycles: i64)
        requires
            old(memory).wf(),
        ensures
            final(memory).wf(),
            (Outcome { cpu: *final(self), mem: final(memory)@, cycles: cycles as int })
                == old(self).spec_execute(old(memory)@, Instr::Pop(pair)),
    {
        proof {
            reveal(CPU::spec_execute);
        }
        let value: u16 = self.pop_short(memory);
        self.set_pair(pair, value);
        12
    }

    /// PUSH rr.
    pub fn op_push(&mut self, memory: &mut Memory, pair: StackPair) -> (cycles: i64)
        requires
            old(memory).wf(),
        ensures
            final(memory).wf(),
            (Outcome { cpu: *final(self), mem: final(memory)@, cycles: cycles as int })
                == old(self).spec_execute(old(memory)@, Instr::Push(pair)),
    {
        proof {
            reveal(CPU::spec_execute);
        }
        let value: u16 = self.pair(pair);
        self.push_short(memory, value);
        16
    }

    /// JP cc,a16: jumps to the address behind the opcode if the condition holds.
    pub fn op_jump_if(&mut self, memory: &mut Memory, condition: Condition) -> (cycles: i64)
        requires
            old(memory).wf(),
        ensures
            final(memory).wf(),
            (Outcome { cpu: *final(self), mem: final(memory)@, cycles: cycles as int })
                == old(self).spec_execute(old(memory)@, Instr::JumpIf(condition)),
    {
        proof {
            reveal(CPU::spec_execute);
        }
        let target: u16 = self.read_short_immediate(memory);
        if self.holds(condition) {
            self.program_counter = target;
            16
        } else {
            12
        }
    }

    /// JP a16: jumps to the address behind the opcode.
    pub fn op_jump(&mut self, memory: &mut Memory) -> (cycles: i64)
        requires
            old(memory).wf(),
        ensures
            final(memory).wf(),
            (Outcome { cpu: *final(self), mem: final(memory)@, cycles: cycles as int })
                == old(self).spec_execute(old(memory)@, Instr::Jump),
    {
        proof {
            reveal(CPU::spec_execute);
        }
        let target: u16 = memory.read_short(self.program_counter);
        self.program_counter = target;
        16
    }

    /// JP (HL): jumps to the address in HL.
    pub fn op_jump_hl(&mut self, memory: &mut Memory) -> (cycles: i64)
        requires
            old(memory).wf(),
        ensures
            final(memory).wf(),
            (Outcome { cpu: *final(self), mem: final(memory)@, cycles: cycles as int })
                == old(self).spec_execute(old(memory)@, Instr::JumpHl),
    {
        proof {
            reveal(CPU::spec_execute);
        }
        self.program_counter = self.hl();
        4
    }

    /// CALL cc,a16: pushes the address of the next instruction and jumps, if
    /// the condition holds.
    pub fn op_call_if(&mut self, memory: &mut Memory, condition: Condition) -> (cycles: i64)
        requires
            old(memory).wf(),
        ensures
            final(memory).wf(),
            (Outcome { cpu: *final(self), mem: final(memory)@, cycles: cycles as int })
                == old(self).spec_execute(old(memory)@, Instr::CallIf(condition)),
    {
        proof {
            reveal(CPU::spec_execute);
        }
        let target: u16 = self.read_short_immediate(memory);
        if self.holds(condition) {
            let pc: u16 = self.program_counter;
            self.push_short(memory, pc);
            self.program_counter = target;
            24
        } else {
            12
        }
    }

    /// CALL a16: pushes the address of the next instruction and jumps.
    pub fn op_call(&mut self, memory: &mut Memory) -> (cycles: i64)
        requires
            old(memory).wf(),
        ensures
            final(memory).wf(),
            (Outcome { cpu: *final(self), mem: final(memory)@, cycles: cycles as int })
                == old(self).spec_execute(old(memory)@, Instr::Call),
    {
        proof {
            reveal(CPU::spec_execute);
        }
        let target: u16 = self.read_short_immediate(memory);
        let pc: u16 = self.program_counter;
        self.push_short(memory, pc);
        self.program_counter = target;
        24
    }

    /// RST n.
    pub fn op_restart(&mut self, memory: &mut Memory, target: u8) -> (cycles: i64)
        requires
            old(memory).wf(),
        ensures
            final(memory).wf(),
            (Outcome { cpu: *final(self), mem: final(memory)@, cycles: cycles as int })
                == old(self).spec_execute(old(memory)@, Instr::Restart(target)),
    {
        proof {
            reveal(CPU::spec_execute);
        }
        self.rst(target as u16, memory);
        16
    }

    /// The 0xCB prefix: executes the instruction of the second table that the
    /// next byte names.
    pub fn op_prefix(&mut self, memory: &mut Memory) -> (cycles: i64)
        requires
            old(memory).wf(),
            spec_decode_cb(old(memory)@.read(old(self).program_counter)) is Some,
        ensures
            final(memory).wf(),
            (Outcome { cpu: *final(self), mem: final(memory)@, cycles: cycles as int })
                == old(self).spec_execute(old(memory)@, Instr::Prefix),
    {
        proof {
            reveal(CPU::spec_execute);
        }
        let next_opcode: u8 = self.read_byte_immediate(memory);
        self.cb(next_opcode)
    }

    /// LDH (a8),A: writes A in the page at 0xFF00, at the offset behind the opcode.
    pub fn op_store_high(&mut self, memory: &mut Memory) -> (cycles: i64)
        requires
            old(memory).wf(),
        ensures
            final(memory).wf(),
            (Outcome { cpu: *final(self), mem: final(memory)@, cycles: cycles as int })
                == old(self).spec_execute(old(memory)@, Instr::StoreHigh),
    {
        proof {
            reveal(CPU::spec_execute);
        }
        let offset: u8 = self.read_byte_immediate(memory);
        memory.write_byte(0xFF00 + offset as u16, self.a);
        12
    }

    /// LDH A,(a8): reads A from the page at 0xFF00, at the offset behind the opcode.
    pub fn op_load_high(&mut self, memory: &mut Memory) -> (cycles: i64)
        requires
            old(memory).wf(),
        ensures
            final(memory).wf(),
            (Outcome { cpu: *final(self), mem: final(memory)@, cycles: cycles as int })
                == old(self).spec_execute(old(memory)@, Instr::LoadHigh),
    {
        proof {
            reveal(CPU::spec_execute);
        }
        let offset: u8 = self.read_byte_immediate(memory);
        self.a = memory.read_byte(0xFF00 + offset as u16);
        12
    }

    /// LD (C),A: writes A in the page at 0xFF00, at the offset in C.
    pub fn op_store_high_c(&mut self, memory: &mut Memory) -> (cycles: i64)
        requires
            old(memory).wf(),
        ensures
            final(memory).wf(),
            (Outcome { cpu: *final(self), mem: final(memory)@, cycles: cycles as int })
                == old(self).spec_execute(old(memory)@, Instr::StoreHighC),
    {
        proof {
            reveal(CPU::spec_execute);
        }
        memory.write_byte(0xFF00 + self.c as u16, self.a);
        8
    }

    /// ADD SP,r8: adds the signed byte behind the opcode to the stack pointer.
    pub fn op_add_sp(&mut self, memory: &mut Memory) -> (cycles: i64)
        requires
            old(memory).wf(),
        ensures
            final(memory).wf(),
            (Outcome { cpu: *final(self), mem: final(memory)@, cycles: cycles as int })
                == old(self).spec_execute(old(memory)@, Instr::AddSp),
    {
        proof {
            reveal(CPU::spec_execute);
        }
        let val: i8 = self.read_signed_byte_immediate(memory);
        let (value, flags) = add_sp(self.stack_pointer, val);
        self.stack_pointer = value;
        self.f = flags;
        16
    }

    /// LD (a16),A: writes A at the address behind the opcode.
    pub fn op_store_absolute(&mut self, memory: &mut Memory) -> (cycles: i64)
        requires
            old(memory).wf(),
        ensures
            final(memory).wf(),
            (Outcome { cpu: *final(self), mem: final(memory)@, cycles: cycles as int })
                == old(self).spec_execute(old(memory)@, Instr::StoreAbsolute),
    {
        proof {
            reveal(CPU::spec_execute);
        }
        let dest: u16 = self.read_short_immediate(memory);
        memory.write_byte(dest, self.a);
        16
    }

    /// LD A,(a16): reads A from the address behind the opcode.
    pub fn op_load_absolute(&mut self, memory: &mut Memory) -> (cycles: i64)
        requires
            old(memory).wf(),
        ensures
            final(memory).wf(),
            (Outcome { cpu: *final(self), mem: final(memory)@, cycles: cycles as int })
                == old(self).spec_execute(old(memory)@, Instr::LoadAbsolute),
    {
        proof {
            reveal(CPU::spec_execute);
        }
        let addr: u16 = self.read_short_immediate(memory);
        self.a = memory.read_byte(addr);
        16
    }

    /// LD SP,HL.
    pub fn op_load_sp_hl(&mut self, memory: &mut Memory) -> (cycles: i64)
        requires
            old(memory).wf(),
        ensures
            final(memory).wf(),
            (Outcome { cpu: *final(self), mem: final(memory)@, cycles: cycles as int })
                == old(self).spec_execute(old(memory)@, Instr::LoadSpHl),
    {
        proof {
            reveal(CPU::spec_execute);
        }
        self.stack_pointer = self.hl();
        8
    }

    /// DI: clears the master interrupt enable at once.
    pub fn op_disable_interrupts(&mut self, memory: &mut Memory) -> (cycles: i64)
        requires
            old(memory).wf(),
        ensures
            final(memory).wf(),
            (Outcome { cpu: *final(self), mem: final(memory)@, cycles: cycles as int })
                == old(self).spec_execute(old(memory)@, Instr::DisableInterrupts),
    {
        proof {
            reveal(CPU::spec_execute);
        }
        self.interrupts = false;
        4
    }

    /// EI: marks the master interrupt enable to be set by the next step that fetches.
    pub fn op_enable_interrupts(&mut self, memory: &mut Memory) -> (cycles: i64)
        requires
            old(memory).wf(),
        ensures
            final(memory).wf(),
            (Outcome { cpu: *final(self), mem: final(memory)@, cycles: cycles as int })
                == old(self).spec_execute(old(memory)@, Instr::EnableInterrupts),
    {
        proof {
            reveal(CPU::spec_execute);
        }
        self.transition_enable_interrupts = true;
        4
    }

    /// Whether `instr` is a load or store between registers and memory.
    pub open spec fn spec_is_load(instr: Instr) -> bool {
        instr is LoadWide
            || instr is StoreA
            || instr is LoadA
            || instr is LoadImmediate
            || instr is Load
            || instr is StoreSp
            || instr is LoadSpHl
    }

    /// Executes a load or store between registers and memory, with the program
    /// counter just behind its opcode, and returns its cost.
    pub fn execute_load(&mut self, memory: &mut Memory, instr: Instr) -> (cycles: i64)
        requires
            old(memory).wf(),
            Self::spec_is_load(instr),
            instr is Prefix ==> spec_decode_cb(old(memory)@.read(old(self).program_counter))
                is Some,
        ensures
            final(memory).wf(),
            (Outcome { cpu: *final(self), mem: final(memory)@, cycles: cycles as int })
                == old(self).spec_execute(old(memory)@, instr),
    {
        match instr {
            Instr::LoadWide(register) => self.op_load_wide(memory, register),
            Instr::StoreA(pointer) => self.op_store_a(memory, pointer),
            Instr::LoadA(pointer) => self.op_load_a(memory, pointer),
            Instr::LoadImmediate(operand) => self.op_load_immediate(memory, operand),
            Instr::Load(target, source) => self.op_load(memory, target, source),
            Instr::StoreSp => self.op_store_sp(memory),
            Instr::LoadSpHl => self.op_load_sp_hl(memory),
            _ => unreached(),
        }
    }

    /// Whether `instr` is a load or store at a fixed address, a push or a pop.
    pub open spec fn spec_is_transfer(instr: Instr) -> bool {
        instr is StoreHigh
            || instr is LoadHigh
            || instr is StoreHighC
            || instr is StoreAbsolute
            || instr is LoadAbsolute
            || instr is Push
            || instr is Pop
    }

    /// Executes a load or store at a fixed address, a push or a pop, with the
    /// program counter just behind its opcode, and returns its cost.
    pub fn execute_transfer(&mut self, memory: &mut Memory, instr: Instr) -> (cycles: i64)
        requires
            old(memory).wf(),
            Self::spec_is_transfer(instr),
            instr is Prefix ==> spec_decode_cb(old(memory)@.read(old(self).program_counter))
                is Some,
        ensures
            final(memory).wf(),
            (Outcome { cpu: *final(self), mem: final(memory)@, cycles: cycles as int })
                == old(self).spec_execute(old(memory)@, instr),
    {
        match instr {
            Instr::StoreHigh => self.op_store_high(memory),
            Instr::LoadHigh => self.op_load_high(memory),
            Instr::StoreHighC => self.op_store_high_c(memory),
            Instr::StoreAbsolute => self.op_store_absolute(memory),
            Instr::LoadAbsolute => self.op_load_absolute(memory),
            Instr::Push(pair) => self.op_push(memory, pair),
            Instr::Pop(pair) => self.op_pop(memory, pair),
            _ => unreached(),
        }
    }

    /// Whether `instr` is an increment, decrement, addition or other arithmetic
    /// or logic instruction.
    pub open spec fn spec_is_arithmetic(instr: Instr) -> bool {
        instr is IncWide
            || instr is DecWide
            || instr is Inc
            || instr is Dec
            || instr is AddHl
            || instr is Alu
            || instr is AluImmediate
    }

    /// Executes an increment, decrement, addition or other arithmetic or logic
    /// instruction, with the program counter just behind its opcode, and
    /// returns its cost.
    pub fn execute_arithmetic(&mut self, memory: &mut Memory, instr: Instr) -> (cycles: i64)
        requires
            old(memory).wf(),
            Self::spec_is_arithmetic(instr),
            instr is Prefix ==> spec_decode_cb(old(memory)@.read(old(self).program_counter))
                is Some,
        ensures
            final(memory).wf(),
            (Outcome { cpu: *final(self), mem: final(memory)@, cycles: cycles as int })
                == old(self).spec_execute(old(memory)@, instr),
    {
        match instr {
            Instr::IncWide(register) => self.op_inc_wide(memory, register),
            Instr::DecWide(register) => self.op_dec_wide(memory, register),
            Instr::Inc(operand) => self.op_inc(memory, operand),
            Instr::Dec(operand) => self.op_dec(memory, operand),
            Instr::AddHl(register) => self.op_add_hl(memory, register),
            Instr::Alu(op, operand) => self.op_alu(memory, op, operand),
            Instr::AluImmediate(op) => self.op_alu_immediate(memory, op),
            _ => unreached(),
        }
    }

    /// Whether `instr` is a rotate of A, CPL, ADD SP, a prefixed instruction, NOP or DI.
    pub open spec fn spec_is_rotate(instr: Instr) -> bool {
        instr is RotateLeftA
            || instr is RotateRightA
            || instr is Complement
            || instr is AddSp
            || instr is Prefix
            || instr is Nop
            || instr is DisableInterrupts
    }

    /// Executes a rotate of A, CPL, ADD SP, a prefixed instruction, NOP or DI,
    /// with the program counter just behind its opcode, and returns its cost.
    pub fn execute_rotate(&mut self, memory: &mut Memory, instr: Instr) -> (cycles: i64)
        requires
            old(memory).wf(),
            Self::spec_is_rotate(instr),
            instr is Prefix ==> spec_decode_cb(old(memory)@.read(old(self).program_counter))
                is Some,
        ensures
            final(memory).wf(),
            (Outcome { cpu: *final(self), mem: final(memory)@, cycles: cycles as int })
                == old(self).spec_execute(old(memory)@, instr),
    {
        match instr {
            Instr::RotateLeftA => self.op_rotate_left_a(memory),
            Instr::RotateRightA => self.op_rotate_right_a(memory),
            Instr::Complement => self.op_complement(memory),
            Instr::AddSp => self.op_add_sp(memory),
            Instr::Prefix => self.op_prefix(memory),
            Instr::Nop => self.op_nop(memory),
            Instr::DisableInterrupts => self.op_disable_interrupts(memory),
            _ => unreached(),
        }
    }

    /// Whether `instr` is a jump or EI.
    pub open spec fn spec_is_jump(instr: Instr) -> bool {
        instr is JumpRelative
            || instr is JumpRelativeIf
            || instr is JumpIf
            || instr is Jump
            || instr is JumpHl
            || instr is EnableInterrupts
    }

    /// Executes a jump or EI, with the program counter just
    /// behind its opcode, and returns its cost.
    pub fn execute_jump(&mut self, memory: &mut Memory, instr: Instr) -> (cycles: i64)
        requires
            old(memory).wf(),
            Self::spec_is_jump(instr),
            instr is Prefix ==> spec_decode_cb(old(memory)@.read(old(self).program_counter))
                is Some,
        ensures
            final(memory).wf(),
            (Outcome { cpu: *final(self), mem: final(memory)@, cycles: cycles as int })
                == old(self).spec_execute(old(memory)@, instr),
    {
        match instr {
            Instr::JumpRelative => self.op_jump_relative(memory),
            Instr::JumpRelativeIf(condition) => self.op_jump_relative_if(memory, condition),
            Instr::JumpIf(condition) => self.op_jump_if(memory, condition),
            Instr::Jump => self.op_jump(memory),
            Instr::JumpHl => self.op_jump_hl(memory),
            Instr::EnableInterrupts => self.op_enable_interrupts(memory),
            _ => unreached(),
        }
    }

    /// Whether `instr` is a call, return or restart.
    pub open spec fn spec_is_call(instr: Instr) -> bool {
        instr is ReturnIf
            || instr is Return
            || instr is CallIf
            || instr is Call
            || instr is Restart
    }

    /// Executes a call, return or restart, with the program counter just
    /// behind its opcode, and returns its cost.
    pub fn execute_call(&mut self, memory: &mut Memory, instr: Instr) -> (cycles: i64)
        requires
            old(memory).wf(),
            Self::spec_is_call(instr),
            instr is Prefix ==> spec_decode_cb(old(memory)@.read(old(self).program_counter))
                is Some,
        ensures
            final(memory).wf(),
            (Outcome { cpu: *final(self), mem: final(memory)@, cycles: cycles as int })
                == old(self).spec_execute(old(memory)@, instr),
    {
        match instr {
            Instr::ReturnIf(condition) => self.op_return_if(memory, condition),
            Instr::Return => self.op_return(memory),
            Instr::CallIf(condition) => self.op_call_if(memory, condition),
            Instr::Call => self.op_call(memory),
            Instr::Restart(target) => self.op_restart(memory, target),
            _ => unreached(),
        }
    }

    /// Executes an instruction of the primary table, with the program
    /// counter just behind its opcode, and returns its cost.
    pub fn execute(&mut self, memory: &mut Memory, instr: Instr) -> (cycles: i64)
        requires
            old(memory).wf(),
            instr is Prefix ==> spec_decode_cb(old(memory)@.read(old(self).program_counter))
                is Some,
        ensures
            final(memory).wf(),
            (Outcome { cpu: *final(self), mem: final(memory)@, cycles: cycles as int })
                == old(self).spec_execute(old(memory)@, instr),
    {
        match instr {
            Instr::LoadWide(_) | Instr::StoreA(_) | Instr::LoadA(_) | Instr::LoadImmediate(_) | Instr::Load(_, _) | Instr::StoreSp | Instr::LoadSpHl => self.execute_load(memory, instr),
            Instr::StoreHigh | Instr::LoadHigh | Instr::StoreHighC | Instr::StoreAbsolute | Instr::LoadAbsolute | Instr::Push(_) | Instr::Pop(_) => self.execute_transfer(memory, instr),
            Instr::IncWide(_) | Instr::DecWide(_) | Instr::Inc(_) | Instr::Dec(_) | Instr::AddHl(_) | Instr::Alu(_, _) | Instr::AluImmediate(_) => self.execute_arithmetic(memory, instr),
            Instr::RotateLeftA | Instr::RotateRightA | Instr::Complement | Instr::AddSp | Instr::Prefix | Instr::Nop | Instr::DisableInterrupts => self.execute_rotate(memory, instr),
            Instr::JumpRelative | Instr::JumpRelativeIf(_) | Instr::JumpIf(_) | Instr::Jump | Instr::JumpHl | Instr::EnableInterrupts => self.execute_jump(memory, instr),
            Instr::ReturnIf(_) | Instr::Return | Instr::CallIf(_) | Instr::Call | Instr::Restart(_) => self.execute_call(memory, instr),
        }
    }
}

/// The ticks an instruction takes that costs `plain` on a register and
/// `indirect` on the byte at HL.
pub fn cost(operand: Operand, plain: i64, indirect: i64) -> (cycles: i64)
    ensures
        cycles == CPU::spec_cost(operand, plain as int, indirect as int),
{
    match operand {
        Operand::AtHl => indirect,
        Operand::Reg(_) => plain,
    }
}

} // verus!
