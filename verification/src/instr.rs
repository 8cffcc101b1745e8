//! The instruction set: what each opcode byte names.
//!
//! An opcode splits into three fields, `x` (its top two bits), `y` (the
//! next three) and `z` (the low three). Registers, register pairs,
//! conditions and arithmetic operations are numbered by such a field.

use vstd::prelude::*;

verus! {

/// An 8-bit register.
#[derive(Clone, Copy, Debug, PartialEq, Eq, Structural)]
pub enum Reg8 {
    A,
    B,
    C,
    D,
    E,
    H,
    L,
}

/// Where an 8-bit operand lies: in a register, or in memory at the address
/// HL holds.
#[derive(Clone, Copy, Debug, PartialEq, Eq, Structural)]
pub enum Operand {
    Reg(Reg8),
    AtHl,
}

/// A 16-bit register that arithmetic and loads name.
#[derive(Clone, Copy, Debug, PartialEq, Eq, Structural)]
pub enum Reg16 {
    BC,
    DE,
    HL,
    SP,
}

/// A register pair that can be pushed and popped.
#[derive(Clone, Copy, Debug, PartialEq, Eq, Structural)]
pub enum StackPair {
    BC,
    DE,
    HL,
    AF,
}

/// A pointer for loads to and from A: BC, DE, or HL with a step after the
/// access.
#[derive(Clone, Copy, Debug, PartialEq, Eq, Structural)]
pub enum Pointer {
    BC,
    DE,
    HlIncrement,
    HlDecrement,
}

/// A condition on the flags.
#[derive(Clone, Copy, Debug, PartialEq, Eq, Structural)]
pub enum Condition {
    NotZero,
    Zero,
    NotCarry,
    Carry,
}

/// An arithmetic or logic operation on A.
#[derive(Clone, Copy, Debug, PartialEq, Eq, Structural)]
pub enum AluOp {
    Add,
    Adc,
    Sub,
    Sbc,
    And,
    Xor,
    Or,
    Cp,
}

/// An instruction of the primary table.
#[derive(Clone, Copy, Debug, PartialEq, Eq, Structural)]
pub enum Instr {
    /// NOP
    Nop,
    /// LD rr,d16
    LoadWide(Reg16),
    /// LD (BC),A; LD (DE),A; LD (HL+),A; LD (HL-),A
    StoreA(Pointer),
    /// LD A,(BC); LD A,(DE); LD A,(HL+); LD A,(HL-)
    LoadA(Pointer),
    /// INC rr
    IncWide(Reg16),
    /// DEC rr
    DecWide(Reg16),
    /// INC r; INC (HL)
    Inc(Operand),
    /// DEC r; DEC (HL)
    Dec(Operand),
    /// LD r,d8; LD (HL),d8
    LoadImmediate(Operand),
    /// RLCA and RLA
    RotateLeftA,
    /// RRCA and RRA
    RotateRightA,
    /// LD (a16),SP
    StoreSp,
    /// ADD HL,rr
    AddHl(Reg16),
    /// JR r8
    JumpRelative,
    /// JR cc,r8
    JumpRelativeIf(Condition),
    /// CPL
    Complement,
    /// LD r,r'; LD r,(HL); LD (HL),r
    Load(Operand, Operand),
    /// ADD, ADC, SUB, SBC, AND, XOR, OR, CP with a register or (HL)
    Alu(AluOp, Operand),
    /// ADD, ADC, SUB, SBC, AND, XOR, OR, CP with d8
    AluImmediate(AluOp),
    /// RET cc
    ReturnIf(Condition),
    /// RET
    Return,
    /// POP rr
    Pop(StackPair),
    /// PUSH rr
    Push(StackPair),
    /// JP cc,a16
    JumpIf(Condition),
    /// JP a16
    Jump,
    /// JP (HL)
    JumpHl,
    /// CALL cc,a16
    CallIf(Condition),
    /// CALL a16
    Call,
    /// RST n, with the target address
    Restart(u8),
    /// The 0xCB prefix: the next byte selects from the second table.
    Prefix,
    /// LDH (a8),A
    StoreHigh,
    /// LDH A,(a8)
    LoadHigh,
    /// LD (C),A
    StoreHighC,
    /// ADD SP,r8
    AddSp,
    /// LD (a16),A
    StoreAbsolute,
    /// LD A,(a16)
    LoadAbsolute,
    /// LD SP,HL
    LoadSpHl,
    /// DI
    DisableInterrupts,
    /// EI
    EnableInterrupts,
}

/// An instruction of the second table, behind the 0xCB prefix.
#[derive(Clone, Copy, Debug, PartialEq, Eq, Structural)]
pub enum CbInstr {
    /// RL r
    RotateLeft(Reg8),
    /// RR r
    RotateRight(Reg8),
    /// SWAP r
    Swap(Reg8),
    /// SRL r
    ShiftRight(Reg8),
    /// BIT n,r
    Bit(u8, Reg8),
    /// RES n,r
    Reset(u8, Reg8),
}

/// The operand a three-bit field names: B, C, D, E, H, L, (HL), A.
pub open spec fn spec_operand(field: int) -> Operand {
    if field == 0 {
        Operand::Reg(Reg8::B)
    } else if field == 1 {
        Operand::Reg(Reg8::C)
    } else if field == 2 {
        Operand::Reg(Reg8::D)
    } else if field == 3 {
        Operand::Reg(Reg8::E)
    } else if field == 4 {
        Operand::Reg(Reg8::H)
    } else if field == 5 {
        Operand::Reg(Reg8::L)
    } else if field == 6 {
        Operand::AtHl
    } else {
        Operand::Reg(Reg8::A)
    }
}

/// The 16-bit register a two-bit field names: BC, DE, HL, SP.
pub open spec fn spec_reg16(field: int) -> Reg16 {
    if field == 0 {
        Reg16::BC
    } else if field == 1 {
        Reg16::DE
    } else if field == 2 {
        Reg16::HL
    } else {
        Reg16::SP
    }
}

/// The stack pair a two-bit field names: BC, DE, HL, AF.
pub open spec fn spec_stack_pair(field: int) -> StackPair {
    if field == 0 {
        StackPair::BC
    } else if field == 1 {
        StackPair::DE
    } else if field == 2 {
        StackPair::HL
    } else {
        StackPair::AF
    }
}

/// The pointer a two-bit field names: (BC), (DE), (HL+), (HL-).
pub open spec fn spec_pointer(field: int) -> Pointer {
    if field == 0 {
        Pointer::BC
    } else if field == 1 {
        Pointer::DE
    } else if field == 2 {
        Pointer::HlIncrement
    } else {
        Pointer::HlDecrement
    }
}

/// The condition a two-bit field names: NZ, Z, NC, C.
pub open spec fn spec_condition(field: int) -> Condition {
    if field == 0 {
        Condition::NotZero
    } else if field == 1 {
        Condition::Zero
    } else if field == 2 {
        Condition::NotCarry
    } else {
        Condition::Carry
    }
}

/// The operation a three-bit field names: ADD, ADC, SUB, SBC, AND, XOR, OR,
/// CP.
pub open spec fn spec_alu_op(field: int) -> AluOp {
    if field == 0 {
        AluOp::Add
    } else if field == 1 {
        AluOp::Adc
    } else if field == 2 {
        AluOp::Sub
    } else if field == 3 {
        AluOp::Sbc
    } else if field == 4 {
        AluOp::And
    } else if field == 5 {
        AluOp::Xor
    } else if field == 6 {
        AluOp::Or
    } else {
        AluOp::Cp
    }
}

/// The instruction with `x == 0`.
pub open spec fn spec_decode_low(y: int, z: int) -> Option<Instr> {
    if z == 0 {
        if y == 0 {
            Some(Instr::Nop)
        } else if y == 1 {
            Some(Instr::StoreSp)
        } else if y == 2 {
            None
        } else if y == 3 {
            Some(Instr::JumpRelative)
        } else {
            Some(Instr::JumpRelativeIf(spec_condition(y - 4)))
        }
    } else if z == 1 {
        if y % 2 == 0 {
            Some(Instr::LoadWide(spec_reg16(y / 2)))
        } else {
            Some(Instr::AddHl(spec_reg16(y / 2)))
        }
    } else if z == 2 {
        if y % 2 == 0 {
            Some(Instr::StoreA(spec_pointer(y / 2)))
        } else {
            Some(Instr::LoadA(spec_pointer(y / 2)))
        }
    } else if z == 3 {
        if y % 2 == 0 {
            Some(Instr::IncWide(spec_reg16(y / 2)))
        } else {
            Some(Instr::DecWide(spec_reg16(y / 2)))
        }
    } else if z == 4 {
        Some(Instr::Inc(spec_operand(y)))
    } else if z == 5 {
        Some(Instr::Dec(spec_operand(y)))
    } else if z == 6 {
        Some(Instr::LoadImmediate(spec_operand(y)))
    } else if y == 0 || y == 2 {
        Some(Instr::RotateLeftA)
    } else if y == 1 || y == 3 {
        Some(Instr::RotateRightA)
    } else if y == 5 {
        Some(Instr::Complement)
    } else {
        None
    }
}

/// The instruction with `x == 3`.
pub open spec fn spec_decode_high(y: int, z: int) -> Option<Instr> {
    if z == 0 {
        if y < 4 {
            Some(Instr::ReturnIf(spec_condition(y)))
        } else if y == 4 {
            Some(Instr::StoreHigh)
        } else if y == 5 {
            Some(Instr::AddSp)
        } else if y == 6 {
            Some(Instr::LoadHigh)
        } else {
            None
        }
    } else if z == 1 {
        if y % 2 == 0 {
            Some(Instr::Pop(spec_stack_pair(y / 2)))
        } else if y == 1 {
            Some(Instr::Return)
        } else if y == 5 {
            Some(Instr::JumpHl)
        } else if y == 7 {
            Some(Instr::LoadSpHl)
        } else {
            None
        }
    } else if z == 2 {
        if y < 4 {
            Some(Instr::JumpIf(spec_condition(y)))
        } else if y == 4 {
            Some(Instr::StoreHighC)
        } else if y == 5 {
            Some(Instr::StoreAbsolute)
        } else if y == 7 {
            Some(Instr::LoadAbsolute)
        } else {
            None
        }
    } else if z == 3 {
        if y == 0 {
            Some(Instr::Jump)
        } else if y == 1 {
            Some(Instr::Prefix)
        } else if y == 6 {
            Some(Instr::DisableInterrupts)
        } else if y == 7 {
            Some(Instr::EnableInterrupts)
        } else {
            None
        }
    } else if z == 4 {
        if y < 4 {
            Some(Instr::CallIf(spec_condition(y)))
        } else {
            None
        }
    } else if z == 5 {
        if y % 2 == 0 {
            Some(Instr::Push(spec_stack_pair(y / 2)))
        } else if y == 1 {
            Some(Instr::Call)
        } else {
            None
        }
    } else if z == 6 {
        Some(Instr::AluImmediate(spec_alu_op(y)))
    } else {
        Some(Instr::Restart((y * 8) as u8))
    }
}

/// The instruction that `opcode` names in the primary table, if it names
/// one. Nineteen opcodes name none: the eleven that the processor lacks,
/// and STOP, DAA, SCF, CCF, HALT, RETI, LD A,(C) and LD HL,SP+r8, which
/// this core does not execute.
pub open spec fn spec_decode(opcode: u8) -> Option<Instr> {
    let x = opcode as int / 64;
    let y = opcode as int / 8 % 8;
    let z = opcode as int % 8;
    if x == 0 {
        spec_decode_low(y, z)
    } else if x == 1 {
        if opcode == 0x76 {
            None
        } else {
            Some(Instr::Load(spec_operand(y), spec_operand(z)))
        }
    } else if x == 2 {
        Some(Instr::Alu(spec_alu_op(y), spec_operand(z)))
    } else {
        spec_decode_high(y, z)
    }
}

/// The instruction that `opcode` names in the second table, if it names
/// one: RL, RR, SWAP and SRL of a register, and BIT and RES of a
/// register's bit. Operations on (HL), and RLC, RRC, SLA, SRA and SET,
/// name none.
pub open spec fn spec_decode_cb(opcode: u8) -> Option<CbInstr> {
    let x = opcode as int / 64;
    let y = opcode as int / 8 % 8;
    let z = opcode as int % 8;
    match spec_operand(z) {
        Operand::AtHl => None,
        Operand::Reg(register) => {
            if x == 0 {
                if y == 2 {
                    Some(CbInstr::RotateLeft(register))
                } else if y == 3 {
                    Some(CbInstr::RotateRight(register))
                } else if y == 6 {
                    Some(CbInstr::Swap(register))
                } else if y == 7 {
                    Some(CbInstr::ShiftRight(register))
                } else {
                    None
                }
            } else if x == 1 {
                Some(CbInstr::Bit(y as u8, register))
            } else if x == 2 {
                Some(CbInstr::Reset(y as u8, register))
            } else {
                None
            }
        },
    }
}

/// The operand that a three-bit field names.
pub fn operand_of(field: u8) -> (operand: Operand)
    requires
        field < 8,
    ensures
        operand == spec_operand(field as int),
{
    match field {
        0 => Operand::Reg(Reg8::B),
        1 => Operand::Reg(Reg8::C),
        2 => Operand::Reg(Reg8::D),
        3 => Operand::Reg(Reg8::E),
        4 => Operand::Reg(Reg8::H),
        5 => Operand::Reg(Reg8::L),
        6 => Operand::AtHl,
        _ => Operand::Reg(Reg8::A),
    }
}

/// The 16-bit register that a two-bit field names.
pub fn reg16_of(field: u8) -> (register: Reg16)
    requires
        field < 4,
    ensures
        register == spec_reg16(field as int),
{
    match field {
        0 => Reg16::BC,
        1 => Reg16::DE,
        2 => Reg16::HL,
        _ => Reg16::SP,
    }
}

/// The stack pair that a two-bit field names.
pub fn stack_pair_of(field: u8) -> (pair: StackPair)
    requires
        field < 4,
    ensures
        pair == spec_stack_pair(field as int),
{
    match field {
        0 => StackPair::BC,
        1 => StackPair::DE,
        2 => StackPair::HL,
        _ => StackPair::AF,
    }
}

/// The pointer that a two-bit field names.
pub fn pointer_of(field: u8) -> (pointer: Pointer)
    requires
        field < 4,
    ensures
        pointer == spec_pointer(field as int),
{
    match field {
        0 => Pointer::BC,
        1 => Pointer::DE,
        2 => Pointer::HlIncrement,
        _ => Pointer::HlDecrement,
    }
}

/// The condition that a two-bit field names.
pub fn condition_of(field: u8) -> (condition: Condition)
    requires
        field < 4,
    ensures
        condition == spec_condition(field as int),
{
    match field {
        0 => Condition::NotZero,
        1 => Condition::Zero,
        2 => Condition::NotCarry,
        _ => Condition::Carry,
    }
}

/// The operation that a three-bit field names.
pub fn alu_op_of(field: u8) -> (op: AluOp)
    requires
        field < 8,
    ensures
        op == spec_alu_op(field as int),
{
    match field {
        0 => AluOp::Add,
        1 => AluOp::Adc,
        2 => AluOp::Sub,
        3 => AluOp::Sbc,
        4 => AluOp::And,
        5 => AluOp::Xor,
        6 => AluOp::Or,
        _ => AluOp::Cp,
    }
}

fn decode_low(y: u8, z: u8) -> (instr: Option<Instr>)
    requires
        y < 8,
        z < 8,
    ensures
        instr == spec_decode_low(y as int, z as int),
{
    match z {
        0 => match y {
            0 => Some(Instr::Nop),
            1 => Some(Instr::StoreSp),
            2 => None,
            3 => Some(Instr::JumpRelative),
            _ => Some(Instr::JumpRelativeIf(condition_of(y - 4))),
        },
        1 => if y % 2 == 0 {
            Some(Instr::LoadWide(reg16_of(y / 2)))
        } else {
            Some(Instr::AddHl(reg16_of(y / 2)))
        },
        2 => if y % 2 == 0 {
            Some(Instr::StoreA(pointer_of(y / 2)))
        } else {
            Some(Instr::LoadA(pointer_of(y / 2)))
        },
        3 => if y % 2 == 0 {
            Some(Instr::IncWide(reg16_of(y / 2)))
        } else {
            Some(Instr::DecWide(reg16_of(y / 2)))
        },
        4 => Some(Instr::Inc(operand_of(y))),
        5 => Some(Instr::Dec(operand_of(y))),
        6 => Some(Instr::LoadImmediate(operand_of(y))),
        _ => match y {
            0 | 2 => Some(Instr::RotateLeftA),
            1 | 3 => Some(Instr::RotateRightA),
            5 => Some(Instr::Complement),
            _ => None,
        },
    }
}

fn decode_high(y: u8, z: u8) -> (instr: Option<Instr>)
    requires
        y < 8,
        z < 8,
    ensures
        instr == spec_decode_high(y as int, z as int),
{
    match z {
        0 => match y {
            0 | 1 | 2 | 3 => Some(Instr::ReturnIf(condition_of(y))),
            4 => Some(Instr::StoreHigh),
            5 => Some(Instr::AddSp),
            6 => Some(Instr::LoadHigh),
            _ => None,
        },
        1 => match y {
            0 | 2 | 4 | 6 => Some(Instr::Pop(stack_pair_of(y / 2))),
            1 => Some(Instr::Return),
            5 => Some(Instr::JumpHl),
            7 => Some(Instr::LoadSpHl),
            _ => None,
        },
        2 => match y {
            0 | 1 | 2 | 3 => Some(Instr::JumpIf(condition_of(y))),
            4 => Some(Instr::StoreHighC),
            5 => Some(Instr::StoreAbsolute),
            7 => Some(Instr::LoadAbsolute),
            _ => None,
        },
        3 => match y {
            0 => Some(Instr::Jump),
            1 => Some(Instr::Prefix),
            6 => Some(Instr::DisableInterrupts),
            7 => Some(Instr::EnableInterrupts),
            _ => None,
        },
        4 => if y < 4 {
            Some(Instr::CallIf(condition_of(y)))
        } else {
            None
        },
        5 => match y {
            0 | 2 | 4 | 6 => Some(Instr::Push(stack_pair_of(y / 2))),
            1 => Some(Instr::Call),
            _ => None,
        },
        6 => Some(Instr::AluImmediate(alu_op_of(y))),
        _ => Some(Instr::Restart(y * 8)),
    }
}

/// Looks `opcode` up in the primary table.
pub fn decode(opcode: u8) -> (instr: Option<Instr>)
    ensures
        instr == spec_decode(opcode),
{
    let x: u8 = opcode / 64;
    let y: u8 = opcode / 8 % 8;
    let z: u8 = opcode % 8;
    match x {
        0 => decode_low(y, z),
        1 => if opcode == 0x76 {
            None
        } else {
            Some(Instr::Load(operand_of(y), operand_of(z)))
        },
        2 => Some(Instr::Alu(alu_op_of(y), operand_of(z))),
        _ => decode_high(y, z),
    }
}

/// Looks `opcode` up in the second table.
pub fn decode_cb(opcode: u8) -> (instr: Option<CbInstr>)
    ensures
        instr == spec_decode_cb(opcode),
        instr matches Some(CbInstr::Bit(at, _)) ==> at < 8,
        instr matches Some(CbInstr::Reset(at, _)) ==> at < 8,
{
    let x: u8 = opcode / 64;
    let y: u8 = opcode / 8 % 8;
    let z: u8 = opcode % 8;
    match operand_of(z) {
        Operand::AtHl => None,
        Operand::Reg(register) => match x {
            0 => match y {
                2 => Some(CbInstr::RotateLeft(register)),
                3 => Some(CbInstr::RotateRight(register)),
                6 => Some(CbInstr::Swap(register)),
                7 => Some(CbInstr::ShiftRight(register)),
                _ => None,
            },
            1 => Some(CbInstr::Bit(y, register)),
            2 => Some(CbInstr::Reset(y, register)),
            _ => None,
        },
    }
}

} // verus!
