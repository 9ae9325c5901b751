use vstd::prelude::*;

verus! {

/// How an instruction locates its operand in memory.
#[allow(non_camel_case_types)]
#[derive(Debug, Clone, Copy, PartialEq, Eq, Structural)]
pub enum AddressingMode {
    /// The operand is the byte at the program counter.
    Immediate,
    /// The operand byte is the address.
    ZeroPage,
    /// The operand byte plus X, wrapping within the zero page.
    ZeroPage_X,
    /// The operand byte plus Y, wrapping within the zero page.
    ZeroPage_Y,
    /// The little-endian word at the program counter is the address.
    Absolute,
    /// The absolute word plus X, wrapping at 0x10000.
    Absolute_X,
    /// The absolute word plus Y, wrapping at 0x10000.
    Absolute_Y,
    /// The operand byte plus X, wrapping within the zero page, points at the
    /// address word.
    Indirect_X,
    /// The operand byte plus Y, wrapping within the zero page, points at the
    /// address word: here Y indexes the pointer, not the word it points at.
    Indirect_Y,
    /// The instruction takes no memory operand.
    NoneAddressing,
}

/// The operation an opcode byte selects, with its addressing mode where it
/// takes a memory operand.
#[derive(Debug, Clone, Copy, PartialEq, Eq, Structural)]
pub enum Instruction {
    /// Load the accumulator from the resolved operand.
    Lda(AddressingMode),
    /// Transfer the accumulator into index X.
    Tax,
    /// Increment index X, wrapping at 256.
    Inx,
    /// Stop the fetch-decode-execute loop.
    Brk,
}

/// The opcode table: which instruction each opcode byte encodes, or `None`
/// for a byte with no handler.
pub open spec fn decode_spec(opcode: u8) -> Option<Instruction> {
    if opcode == 0xA9 {
        Some(Instruction::Lda(AddressingMode::Immediate))
    } else if opcode == 0xA5 {
        Some(Instruction::Lda(AddressingMode::ZeroPage))
    } else if opcode == 0xB5 {
        Some(Instruction::Lda(AddressingMode::ZeroPage_X))
    } else if opcode == 0xAD {
        Some(Instruction::Lda(AddressingMode::Absolute))
    } else if opcode == 0xBD {
        Some(Instruction::Lda(AddressingMode::Absolute_X))
    } else if opcode == 0xB9 {
        Some(Instruction::Lda(AddressingMode::Absolute_Y))
    } else if opcode == 0xA1 {
        Some(Instruction::Lda(AddressingMode::Indirect_X))
    } else if opcode == 0xB1 {
        Some(Instruction::Lda(AddressingMode::Indirect_Y))
    } else if opcode == 0xAA {
        Some(Instruction::Tax)
    } else if opcode == 0xE8 {
        Some(Instruction::Inx)
    } else if opcode == 0x00 {
        Some(Instruction::Brk)
    } else {
        None
    }
}

/// Number of operand bytes that follow the opcode of `instr` in the program.
pub open spec fn operand_len_spec(instr: Instruction) -> u16 {
    match instr {
        Instruction::Lda(mode) => match mode {
            AddressingMode::Absolute | AddressingMode::Absolute_X | AddressingMode::Absolute_Y => 2,
            _ => 1,
        },
        _ => 0,
    }
}

/// Looks an opcode byte up in the opcode table.
pub fn decode(opcode: u8) -> (r: Option<Instruction>)
    ensures
        r == decode_spec(opcode),
{
    match opcode {
        0xA9 => Some(Instruction::Lda(AddressingMode::Immediate)),
        0xA5 => Some(Instruction::Lda(AddressingMode::ZeroPage)),
        0xB5 => Some(Instruction::Lda(AddressingMode::ZeroPage_X)),
        0xAD => Some(Instruction::Lda(AddressingMode::Absolute)),
        0xBD => Some(Instruction::Lda(AddressingMode::Absolute_X)),
        0xB9 => Some(Instruction::Lda(AddressingMode::Absolute_Y)),
        0xA1 => Some(Instruction::Lda(AddressingMode::Indirect_X)),
        0xB1 => Some(Instruction::Lda(AddressingMode::Indirect_Y)),
        0xAA => Some(Instruction::Tax),
        0xE8 => Some(Instruction::Inx),
        0x00 => Some(Instruction::Brk),
        _ => None,
    }
}

/// How many operand bytes follow the opcode of `instr`.
pub fn operand_len(instr: Instruction) -> (r: u16)
    ensures
        r == operand_len_spec(instr),
        r <= 2,
{
    match instr {
        Instruction::Lda(mode) => match mode {
            AddressingMode::Absolute | AddressingMode::Absolute_X | AddressingMode::Absolute_Y => 2,
            _ => 1,
        },
        _ => 0,
    }
}

} // verus!
