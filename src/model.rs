use vstd::prelude::*;

use crate::opcodes::{decode_spec, operand_len_spec, AddressingMode, Instruction};

verus! {

/// Number of addressable bytes; valid addresses are `0..MEM_SIZE`.
pub const MEM_SIZE: usize = 0xFFFF;

/// Address at which `load` places a program image.
pub const PROGRAM_ORIGIN: u16 = 0x8000;

/// Address of the little-endian word from which `reset` takes the program counter.
pub const RESET_VECTOR: u16 = 0xFFFC;

/// Status bit set exactly when the last result was zero.
pub const FLAG_ZERO: u8 = 0b0000_0010;

/// Status bit set exactly when bit 7 of the last result was one.
pub const FLAG_NEGATIVE: u8 = 0b1000_0000;

/// A fatal condition that stops the engine.
#[derive(Debug, Clone, Copy, PartialEq, Eq, Structural)]
pub enum CpuError {
    /// The opcode byte has no handler.
    UnimplementedInstruction(u8),
    /// Address resolution was asked for a mode that takes no operand.
    UnsupportedAddressingMode(AddressingMode),
    /// A read or write touched an address outside memory.
    AddressOutOfRange(u16),
    /// A program image of this length does not fit between the origin and the top of memory.
    ProgramTooLarge(usize),
}

/// The abstract state of the engine: the register file and memory.
pub struct Machine {
    pub a: u8,
    pub x: u8,
    pub y: u8,
    pub status: u8,
    pub pc: u16,
    pub mem: Seq<u8>,
}

/// The byte at `addr`, or the range error when `addr` lies outside memory.
pub open spec fn read_byte(mem: Seq<u8>, addr: u16) -> Result<u8, CpuError> {
    if (addr as int) < MEM_SIZE {
        Ok(mem[addr as int])
    } else {
        Err(CpuError::AddressOutOfRange(addr))
    }
}

/// The 16-bit word whose low byte is `lo` and high byte is `hi`.
pub open spec fn word(lo: u8, hi: u8) -> u16 {
    (hi as int * 256 + lo as int) as u16
}

/// The little-endian word stored at `pos` and `pos + 1`.
pub open spec fn read_word(mem: Seq<u8>, pos: u16) -> Result<u16, CpuError> {
    match read_byte(mem, pos) {
        Err(e) => Err(e),
        Ok(lo) => match read_byte(mem, (pos + 1) as u16) {
            Err(e) => Err(e),
            Ok(hi) => Ok(word(lo, hi)),
        },
    }
}

/// Memory after storing `data` at `addr`, or the range error.
pub open spec fn write_byte(mem: Seq<u8>, addr: u16, data: u8) -> Result<Seq<u8>, CpuError> {
    if (addr as int) < MEM_SIZE {
        Ok(mem.update(addr as int, data))
    } else {
        Err(CpuError::AddressOutOfRange(addr))
    }
}

/// Memory after storing `data` little-endian at `pos` and `pos + 1`, or the
/// range error of the first address outside memory (then nothing is stored).
pub open spec fn write_word(mem: Seq<u8>, pos: u16, data: u16) -> Result<Seq<u8>, CpuError> {
    if (pos as int) >= MEM_SIZE {
        Err(CpuError::AddressOutOfRange(pos))
    } else if pos as int + 1 >= MEM_SIZE {
        Err(CpuError::AddressOutOfRange((pos + 1) as u16))
    } else {
        Ok(mem.update(pos as int, (data % 256) as u8).update(pos + 1, (data / 256) as u8))
    }
}

/// `status` with the Zero flag recomputed from `v`.
pub open spec fn zero_flag_of(status: u8, v: u8) -> u8 {
    if v == 0 {
        status | FLAG_ZERO
    } else {
        status & !FLAG_ZERO
    }
}

/// `status` with the Negative flag recomputed from `v`.
pub open spec fn negative_flag_of(status: u8, v: u8) -> u8 {
    if v & 0x80 != 0 {
        status | FLAG_NEGATIVE
    } else {
        status & !FLAG_NEGATIVE
    }
}

/// `status` with both Zero and Negative recomputed from the result `v`.
pub open spec fn flags_of(status: u8, v: u8) -> u8 {
    negative_flag_of(zero_flag_of(status, v), v)
}

/// Whether the Zero and Negative bits of `status` describe `v`.
pub open spec fn flags_describe(status: u8, v: u8) -> bool {
    &&& (status & FLAG_ZERO != 0 <==> v == 0)
    &&& (status & FLAG_NEGATIVE != 0 <==> v & 0x80 != 0)
}

/// The operand address for `mode`, with the program counter at the first
/// operand byte. Depends on the program counter, the index registers and
/// memory alone.
pub open spec fn resolve(mode: AddressingMode, pc: u16, x: u8, y: u8, mem: Seq<u8>) -> Result<u16, CpuError> {
    match mode {
        AddressingMode::Immediate => Ok(pc),
        AddressingMode::ZeroPage => match read_byte(mem, pc) {
            Err(e) => Err(e),
            Ok(b) => Ok(b as u16),
        },
        AddressingMode::ZeroPage_X => match read_byte(mem, pc) {
            Err(e) => Err(e),
            Ok(b) => Ok(((b + x) % 256) as u16),
        },
        AddressingMode::ZeroPage_Y => match read_byte(mem, pc) {
            Err(e) => Err(e),
            Ok(b) => Ok(((b + y) % 256) as u16),
        },
        AddressingMode::Absolute => read_word(mem, pc),
        AddressingMode::Absolute_X => match read_word(mem, pc) {
            Err(e) => Err(e),
            Ok(w) => Ok(((w + x) % 0x10000) as u16),
        },
        AddressingMode::Absolute_Y => match read_word(mem, pc) {
            Err(e) => Err(e),
            Ok(w) => Ok(((w + y) % 0x10000) as u16),
        },
        AddressingMode::Indirect_X => match read_byte(mem, pc) {
            Err(e) => Err(e),
            Ok(b) => Ok(zero_page_pointer(mem, ((b + x) % 256) as u8)),
        },
        AddressingMode::Indirect_Y => match read_byte(mem, pc) {
            Err(e) => Err(e),
            Ok(b) => Ok(zero_page_pointer(mem, ((b + y) % 256) as u8)),
        },
        AddressingMode::NoneAddressing => Err(CpuError::UnsupportedAddressingMode(mode)),
    }
}

/// The word stored at zero-page address `p`, its high byte taken from
/// `p + 1` wrapped within the zero page.
pub open spec fn zero_page_pointer(mem: Seq<u8>, p: u8) -> u16 {
    word(mem[p as int], mem[((p + 1) % 256) as int])
}

/// One fetch-decode-execute step: the next state, and `Ok(true)` to go on,
/// `Ok(false)` after the terminate opcode, or the fatal error. The opcode
/// fetch advances the program counter before the instruction runs.
pub open spec fn step(m: Machine) -> (Machine, Result<bool, CpuError>) {
    match read_byte(m.mem, m.pc) {
        Err(e) => (m, Err(e)),
        Ok(op) => {
            let pc1 = (m.pc + 1) as u16;
            let m1 = Machine { pc: pc1, ..m };
            match decode_spec(op) {
                None => (m1, Err(CpuError::UnimplementedInstruction(op))),
                Some(Instruction::Brk) => (m1, Ok(false)),
                Some(Instruction::Tax) => (Machine { x: m.a, status: flags_of(m.status, m.a), ..m1 }, Ok(true)),
                Some(Instruction::Inx) => {
                    let x = ((m.x + 1) % 256) as u8;
                    (Machine { x, status: flags_of(m.status, x), ..m1 }, Ok(true))
                },
                Some(Instruction::Lda(mode)) => match resolve(mode, pc1, m.x, m.y, m.mem) {
                    Err(e) => (m1, Err(e)),
                    Ok(addr) => match read_byte(m.mem, addr) {
                        Err(e) => (m1, Err(e)),
                        Ok(v) => (
                            Machine {
                                a: v,
                                status: flags_of(m.status, v),
                                pc: (pc1 + operand_len_spec(Instruction::Lda(mode))) as u16,
                                ..m1
                            },
                            Ok(true),
                        ),
                    },
                },
            }
        },
    }
}

/// A step that goes on leaves the program counter strictly higher.
pub proof fn lemma_step_advances(m: Machine)
    ensures
        step(m).1 == Ok::<bool, CpuError>(true) ==> step(m).0.pc > m.pc,
{
}

/// Steps from `m` until the terminate opcode or a fatal error: the final
/// state and how the run ended.
pub open spec fn run_from(m: Machine) -> (Machine, Result<(), CpuError>)
    decreases 0x10000 - m.pc via run_from_decreases
{
    let (n, r) = step(m);
    match r {
        Ok(true) => run_from(n),
        Ok(false) => (n, Ok(())),
        Err(e) => (n, Err(e)),
    }
}

#[via_fn]
proof fn run_from_decreases(m: Machine) {
    lemma_step_advances(m);
}

/// The state after `reset`: accumulator, index X and status cleared, the
/// program counter taken from the reset vector; index Y and memory kept.
pub open spec fn reset_state(m: Machine) -> Machine {
    Machine { a: 0, x: 0, status: 0, pc: word(m.mem[RESET_VECTOR as int], m.mem[RESET_VECTOR + 1]), ..m }
}

/// `mem` with `program` copied to the addresses from `PROGRAM_ORIGIN` on.
pub open spec fn placed(mem: Seq<u8>, program: Seq<u8>) -> Seq<u8> {
    Seq::new(
        mem.len(),
        |i: int|
            if PROGRAM_ORIGIN <= i < PROGRAM_ORIGIN + program.len() {
                program[i - PROGRAM_ORIGIN]
            } else {
                mem[i]
            },
    )
}

/// The state after loading `program`: the image copied to the origin and the
/// origin written as the reset vector, registers kept; or the error for an
/// image longer than the space from the origin to the top of memory.
pub open spec fn load_image(m: Machine, program: Seq<u8>) -> Result<Machine, CpuError> {
    if program.len() > MEM_SIZE - PROGRAM_ORIGIN {
        Err(CpuError::ProgramTooLarge(program.len() as usize))
    } else {
        Ok(
            Machine {
                mem: placed(m.mem, program).update(RESET_VECTOR as int, (PROGRAM_ORIGIN % 256) as u8).update(
                    RESET_VECTOR + 1,
                    (PROGRAM_ORIGIN / 256) as u8,
                ),
                ..m
            },
        )
    }
}

} // verus!
