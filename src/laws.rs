use vstd::prelude::*;

use crate::model::{
    flags_describe, flags_of, read_byte, resolve, step, word, CpuError, Machine, FLAG_NEGATIVE,
    FLAG_ZERO, MEM_SIZE,
};
use crate::opcodes::{decode_spec, AddressingMode, Instruction};

verus! {

/// Recomputing the flags from a result `v` sets Zero exactly when `v` is
/// zero and Negative exactly when bit 7 of `v` is one, whatever the flags
/// were before, and leaves every other status bit as it was.
pub proof fn law_flags_recomputed(status: u8, v: u8)
    ensures
        flags_describe(flags_of(status, v), v),
        flags_of(status, v) & !(FLAG_ZERO | FLAG_NEGATIVE) == status & !(FLAG_ZERO | FLAG_NEGATIVE),
{
    assert(flags_describe(flags_of(status, v), v)) by (bit_vector);
    assert(flags_of(status, v) & !(FLAG_ZERO | FLAG_NEGATIVE) == status & !(FLAG_ZERO | FLAG_NEGATIVE))
        by (bit_vector);
}

/// After any step that writes a register covered by the flags (the
/// accumulator for a load, index X for a transfer or an increment), Zero and
/// Negative describe the value written.
pub proof fn law_flags_track_written_register(m: Machine)
    requires
        step(m).1 is Ok,
    ensures
        match decode_spec(m.mem[m.pc as int]) {
            Some(Instruction::Lda(_)) => flags_describe(step(m).0.status, step(m).0.a),
            Some(Instruction::Tax) | Some(Instruction::Inx) => flags_describe(step(m).0.status, step(m).0.x),
            _ => true,
        },
{
    law_flags_recomputed(m.status, step(m).0.a);
    law_flags_recomputed(m.status, step(m).0.x);
}

/// Incrementing index X when it holds 0xFF leaves 0x00 there, with Zero set
/// and Negative clear.
pub proof fn law_inx_wraps(m: Machine)
    requires
        read_byte(m.mem, m.pc) == Ok::<u8, CpuError>(0xE8),
        m.x == 0xFF,
    ensures
        step(m).1 == Ok::<bool, CpuError>(true),
        step(m).0.x == 0,
        step(m).0.status & FLAG_ZERO != 0,
        step(m).0.status & FLAG_NEGATIVE == 0,
{
    law_flags_recomputed(m.status, 0);
    assert(0u8 & 0x80 == 0) by (bit_vector);
}

/// Address resolution depends on the program counter, the index registers
/// and memory alone: two states that agree on those resolve every mode to the
/// same result.
pub proof fn law_resolution_is_pure(mode: AddressingMode, m1: Machine, m2: Machine)
    requires
        m1.pc == m2.pc,
        m1.x == m2.x,
        m1.y == m2.y,
        m1.mem == m2.mem,
    ensures
        resolve(mode, m1.pc, m1.x, m1.y, m1.mem) == resolve(mode, m2.pc, m2.x, m2.y, m2.mem),
{
}

/// Indirect addressing reads the pointer's two bytes within the zero page:
/// when the indexed pointer is 0xFF, the low byte comes from 0xFF and the
/// high byte from 0x00, not 0x100.
pub proof fn law_indirect_wraps_in_zero_page(mode: AddressingMode, pc: u16, x: u8, y: u8, mem: Seq<u8>)
    requires
        mem.len() == MEM_SIZE,
        (pc as int) < MEM_SIZE,
        mode == AddressingMode::Indirect_X ==> (mem[pc as int] + x) % 256 == 0xFF,
        mode == AddressingMode::Indirect_Y ==> (mem[pc as int] + y) % 256 == 0xFF,
        mode == AddressingMode::Indirect_X || mode == AddressingMode::Indirect_Y,
    ensures
        resolve(mode, pc, x, y, mem) == Ok::<u16, CpuError>(word(mem[0xFF], mem[0x00])),
{
}

} // verus!
