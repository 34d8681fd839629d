//! The instruction-set architecture: register identifiers, the sixteen
//! opcodes, the six trap vectors, the condition flags, and the bit-field
//! layout of a fetched instruction word.

use vstd::prelude::*;

verus! {

/// Identifier of one of the machine's ten registers: eight
/// general-purpose registers, the program counter and the
/// condition-flag register.
#[derive(Clone, Copy, PartialEq, Eq, Structural, Debug)]
pub enum Register {
    R0,
    R1,
    R2,
    R3,
    R4,
    R5,
    R6,
    R7,
    Pc,
    Cond,
}

/// The index a register identifier occupies in the register file.
pub open spec fn reg_num(r: Register) -> int {
    match r {
        Register::R0 => 0,
        Register::R1 => 1,
        Register::R2 => 2,
        Register::R3 => 3,
        Register::R4 => 4,
        Register::R5 => 5,
        Register::R6 => 6,
        Register::R7 => 7,
        Register::Pc => 8,
        Register::Cond => 9,
    }
}

impl Register {
    /// Decodes a register identifier from its register-file index.
    pub fn from_u16(value: u16) -> (r: Option<Register>)
        ensures
            match r {
                Some(reg) => value <= 9 && reg_num(reg) == value,
                None => value > 9,
            },
    {
        match value {
            0 => Some(Register::R0),
            1 => Some(Register::R1),
            2 => Some(Register::R2),
            3 => Some(Register::R3),
            4 => Some(Register::R4),
            5 => Some(Register::R5),
            6 => Some(Register::R6),
            7 => Some(Register::R7),
            8 => Some(Register::Pc),
            9 => Some(Register::Cond),
            _ => None,
        }
    }

    /// The register's index in the register file.
    pub fn index(self) -> (i: usize)
        ensures
            i == reg_num(self),
            i < 10,
    {
        match self {
            Register::R0 => 0,
            Register::R1 => 1,
            Register::R2 => 2,
            Register::R3 => 3,
            Register::R4 => 4,
            Register::R5 => 5,
            Register::R6 => 6,
            Register::R7 => 7,
            Register::Pc => 8,
            Register::Cond => 9,
        }
    }
}

/// The sixteen instruction classes, one per value of the 4-bit opcode
/// field.  `Rti` and `Res` are the two reserved encodings: executing
/// either halts the engine.
#[derive(Clone, Copy, PartialEq, Eq, Structural, Debug)]
pub enum OpCode {
    Br,
    Add,
    Ld,
    St,
    Jsr,
    And,
    Ldr,
    Str,
    Rti,
    Not,
    Ldi,
    Sti,
    Jmp,
    Res,
    Lea,
    Trap,
}

/// The numeric value of an opcode's 4-bit encoding.
pub open spec fn op_num(op: OpCode) -> u16 {
    match op {
        OpCode::Br => 0,
        OpCode::Add => 1,
        OpCode::Ld => 2,
        OpCode::St => 3,
        OpCode::Jsr => 4,
        OpCode::And => 5,
        OpCode::Ldr => 6,
        OpCode::Str => 7,
        OpCode::Rti => 8,
        OpCode::Not => 9,
        OpCode::Ldi => 10,
        OpCode::Sti => 11,
        OpCode::Jmp => 12,
        OpCode::Res => 13,
        OpCode::Lea => 14,
        OpCode::Trap => 15,
    }
}

impl OpCode {
    /// Decodes an opcode from the value of the 4-bit opcode field.
    /// Every value up to 15 maps to an opcode, so decoding a fetched
    /// instruction's top four bits never fails.
    pub fn from_u16(value: u16) -> (r: Option<OpCode>)
        ensures
            match r {
                Some(op) => value <= 15 && op_num(op) == value,
                None => value > 15,
            },
    {
        match value {
            0 => Some(OpCode::Br),
            1 => Some(OpCode::Add),
            2 => Some(OpCode::Ld),
            3 => Some(OpCode::St),
            4 => Some(OpCode::Jsr),
            5 => Some(OpCode::And),
            6 => Some(OpCode::Ldr),
            7 => Some(OpCode::Str),
            8 => Some(OpCode::Rti),
            9 => Some(OpCode::Not),
            10 => Some(OpCode::Ldi),
            11 => Some(OpCode::Sti),
            12 => Some(OpCode::Jmp),
            13 => Some(OpCode::Res),
            14 => Some(OpCode::Lea),
            15 => Some(OpCode::Trap),
            _ => None,
        }
    }
}

/// The six service routines a trap instruction can request.
#[derive(Clone, Copy, PartialEq, Eq, Structural, Debug)]
pub enum TrapCode {
    /// Read one character from the console, without echo.
    Getc,
    /// Write one character to the console.
    Out,
    /// Write a word string (one character per word) to the console.
    Puts,
    /// Prompt, read one character, and echo it.
    In,
    /// Write a byte string (two characters per word) to the console.
    Putsp,
    /// Announce termination and halt the engine.
    Halt,
}

/// The 8-bit trap vector of a trap code.
pub open spec fn trap_num(t: TrapCode) -> u16 {
    match t {
        TrapCode::Getc => 0x20,
        TrapCode::Out => 0x21,
        TrapCode::Puts => 0x22,
        TrapCode::In => 0x23,
        TrapCode::Putsp => 0x24,
        TrapCode::Halt => 0x25,
    }
}

/// Whether a trap vector selects one of the six defined service routines.
pub open spec fn is_trap_vector(v: u16) -> bool {
    0x20 <= v <= 0x25
}

impl TrapCode {
    /// Decodes a trap code from an 8-bit trap vector; vectors outside the
    /// six defined ones yield `None`, a fatal condition for the engine.
    pub fn from_u16(value: u16) -> (r: Option<TrapCode>)
        ensures
            match r {
                Some(t) => is_trap_vector(value) && trap_num(t) == value,
                None => !is_trap_vector(value),
            },
    {
        match value {
            0x20 => Some(TrapCode::Getc),
            0x21 => Some(TrapCode::Out),
            0x22 => Some(TrapCode::Puts),
            0x23 => Some(TrapCode::In),
            0x24 => Some(TrapCode::Putsp),
            0x25 => Some(TrapCode::Halt),
            _ => None,
        }
    }
}

/// The three mutually exclusive condition flags.
#[derive(Clone, Copy, PartialEq, Eq, Structural, Debug)]
pub enum ConditionFlag {
    Pos,
    Zro,
    Neg,
}

/// The bit pattern a condition flag stores in the flag register.
pub open spec fn flag_num(f: ConditionFlag) -> u16 {
    match f {
        ConditionFlag::Pos => 1,
        ConditionFlag::Zro => 2,
        ConditionFlag::Neg => 4,
    }
}

impl ConditionFlag {
    /// The flag's bit pattern in the flag register.
    pub fn bits(self) -> (b: u16)
        ensures
            b == flag_num(self),
    {
        match self {
            ConditionFlag::Pos => 1,
            ConditionFlag::Zro => 2,
            ConditionFlag::Neg => 4,
        }
    }
}

/// The 4-bit opcode in bits 15:12 of an instruction word.
pub open spec fn op_field(i: u16) -> u16 {
    i >> 12
}

/// The register field in bits 11:9 (the destination register, the store
/// source register, or a branch's condition bits).
pub open spec fn dr_field(i: u16) -> u16 {
    (i >> 9) & 0x7
}

/// The register field in bits 8:6 (the first operand or base register).
pub open spec fn sr1_field(i: u16) -> u16 {
    (i >> 6) & 0x7
}

/// The second-operand register field in bits 2:0.
pub open spec fn sr2_field(i: u16) -> u16 {
    i & 0x7
}

/// The immediate-mode bit 5 of an ADD or AND instruction.
pub open spec fn imm_mode(i: u16) -> bool {
    (i >> 5) & 0x1 == 1
}

/// The long-offset bit 11 of a JSR/JSRR instruction.
pub open spec fn long_mode(i: u16) -> bool {
    (i >> 11) & 0x1 == 1
}

/// The 5-bit immediate field in bits 4:0.
pub open spec fn imm5_field(i: u16) -> u16 {
    i & 0x1F
}

/// The 6-bit offset field in bits 5:0.
pub open spec fn off6_field(i: u16) -> u16 {
    i & 0x3F
}

/// The 9-bit PC-relative offset field in bits 8:0.
pub open spec fn off9_field(i: u16) -> u16 {
    i & 0x1FF
}

/// The 11-bit PC-relative offset field in bits 10:0.
pub open spec fn off11_field(i: u16) -> u16 {
    i & 0x7FF
}

/// The 8-bit trap vector in bits 7:0 of a trap instruction.
pub open spec fn trap_field(i: u16) -> u16 {
    i & 0xFF
}

/// Bounds of every bit field an instruction word can carry: each field
/// fits in its declared width, so register numbers always decode and
/// offsets stay inside their sign-extension widths.
pub proof fn lemma_instr_fields(i: u16)
    by (bit_vector)
    ensures
        op_field(i) <= 15,
        dr_field(i) <= 7,
        sr1_field(i) <= 7,
        sr2_field(i) <= 7,
        imm5_field(i) <= 0x1F,
        off6_field(i) <= 0x3F,
        off9_field(i) <= 0x1FF,
        off11_field(i) <= 0x7FF,
        trap_field(i) <= 0xFF,
{
}

} // verus!
