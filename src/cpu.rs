use vstd::prelude::*;

use crate::model::{
    flags_of, lemma_step_advances, load_image, negative_flag_of, placed, read_byte, read_word,
    reset_state, resolve, run_from, step, word, write_byte, write_word, zero_flag_of,
    zero_page_pointer, CpuError, Machine, FLAG_NEGATIVE, FLAG_ZERO, MEM_SIZE, PROGRAM_ORIGIN,
    RESET_VECTOR,
};
use crate::opcodes::{decode, operand_len, AddressingMode, Instruction};

verus! {

broadcast use vstd::array::group_array_axioms;

/// The register file and the memory it runs against.
pub struct CPU {
    pub register_a: u8,
    pub register_x: u8,
    pub register_y: u8,
    pub status: u8,
    pub program_counter: u16,
    memory: [u8; 0xFFFF],
}

impl View for CPU {
    type V = Machine;

    /// The engine's state: the registers as they stand, and memory.
    closed spec fn view(&self) -> Machine {
        Machine {
            a: self.register_a,
            x: self.register_x,
            y: self.register_y,
            status: self.status,
            pc: self.program_counter,
            mem: self.memory@,
        }
    }
}

impl CPU {
    /// All registers zero and memory filled with zeros.
    pub fn new() -> (r: Self)
        ensures
            r@ == (Machine { a: 0, x: 0, y: 0, status: 0, pc: 0, mem: Seq::new(MEM_SIZE as nat, |i: int| 0u8) }),
    {
        let r = CPU {
            register_a: 0,
            register_x: 0,
            register_y: 0,
            status: 0,
            program_counter: 0,
            memory: [0u8; 0xFFFF],
        };
        assert(r@.mem =~= Seq::new(MEM_SIZE as nat, |i: int| 0u8));
        r
    }

    /// The byte at `addr`; an address outside memory is an error.
    pub fn mem_read(&self, addr: u16) -> (r: Result<u8, CpuError>)
        ensures
            r == read_byte(self@.mem, addr),
    {
        if (addr as usize) < MEM_SIZE {
            Ok(self.memory[addr as usize])
        } else {
            Err(CpuError::AddressOutOfRange(addr))
        }
    }

    /// Stores `data` at `addr`; an address outside memory is an error and
    /// changes nothing.
    pub fn mem_write(&mut self, addr: u16, data: u8) -> (r: Result<(), CpuError>)
        ensures
            match write_byte(old(self)@.mem, addr, data) {
                Ok(mem) => r == Ok::<(), CpuError>(()) && final(self)@ == (Machine { mem, ..old(self)@ }),
                Err(e) => r == Err::<(), CpuError>(e) && *final(self) == *old(self),
            },
    {
        if (addr as usize) < MEM_SIZE {
            self.memory[addr as usize] = data;
            Ok(())
        } else {
            Err(CpuError::AddressOutOfRange(addr))
        }
    }

    /// The little-endian word at `pos` and `pos + 1`.
    pub fn mem_read_u16(&self, pos: u16) -> (r: Result<u16, CpuError>)
        ensures
            r == read_word(self@.mem, pos),
    {
        let lo = match self.mem_read(pos) {
            Ok(b) => b,
            Err(e) => return Err(e),
        };
        let hi = match self.mem_read(pos + 1) {
            Ok(b) => b,
            Err(e) => return Err(e),
        };
        let r = ((hi as u16) << 8) | (lo as u16);
        assert(r == word(lo, hi)) by (bit_vector)
            requires
                r == ((hi as u16) << 8) | (lo as u16),
        ;
        Ok(r)
    }

    /// Stores `data` little-endian at `pos` and `pos + 1`; when either
    /// address lies outside memory nothing is stored.
    pub fn mem_write_u16(&mut self, pos: u16, data: u16) -> (r: Result<(), CpuError>)
        ensures
            match write_word(old(self)@.mem, pos, data) {
                Ok(mem) => r == Ok::<(), CpuError>(()) && final(self)@ == (Machine { mem, ..old(self)@ }),
                Err(e) => r == Err::<(), CpuError>(e) && *final(self) == *old(self),
            },
    {
        if (pos as usize) >= MEM_SIZE {
            return Err(CpuError::AddressOutOfRange(pos));
        }
        if (pos as usize) + 1 >= MEM_SIZE {
            return Err(CpuError::AddressOutOfRange(pos + 1));
        }
        let hi = (data >> 8) as u8;
        let lo = (data & 0xff) as u8;
        assert(hi == data / 256 && lo == data % 256) by (bit_vector)
            requires
                hi == (data >> 8) as u8,
                lo == (data & 0xff) as u8,
        ;
        self.memory[pos as usize] = lo;
        self.memory[pos as usize + 1] = hi;
        Ok(())
    }

    /// Recomputes the Zero flag from `value`, leaving the other bits.
    fn update_zero_flag(&mut self, value: u8)
        ensures
            final(self)@ == (Machine { status: zero_flag_of(old(self)@.status, value), ..old(self)@ }),
    {
        if value == 0 {
            self.status |= FLAG_ZERO;
        } else {
            self.status &= !FLAG_ZERO;
        }
    }

    /// Recomputes the Negative flag from `value`, leaving the other bits.
    fn update_negative_flag(&mut self, value: u8)
        ensures
            final(self)@ == (Machine { status: negative_flag_of(old(self)@.status, value), ..old(self)@ }),
    {
        if value & 0x80 != 0 {
            self.status |= FLAG_NEGATIVE;
        } else {
            self.status &= !FLAG_NEGATIVE;
        }
    }

    /// The operand address for `mode`, with the program counter at the first
    /// operand byte.
    pub fn get_operand_address(&self, mode: &AddressingMode) -> (r: Result<u16, CpuError>)
        ensures
            r == resolve(*mode, self@.pc, self@.x, self@.y, self@.mem),
    {
        match mode {
            AddressingMode::Immediate => Ok(self.program_counter),
            AddressingMode::ZeroPage => match self.mem_read(self.program_counter) {
                Ok(b) => Ok(b as u16),
                Err(e) => Err(e),
            },
            AddressingMode::ZeroPage_X => match self.mem_read(self.program_counter) {
                Ok(b) => Ok(b.wrapping_add(self.register_x) as u16),
                Err(e) => Err(e),
            },
            AddressingMode::ZeroPage_Y => match self.mem_read(self.program_counter) {
                Ok(b) => Ok(b.wrapping_add(self.register_y) as u16),
                Err(e) => Err(e),
            },
            AddressingMode::Absolute => self.mem_read_u16(self.program_counter),
            AddressingMode::Absolute_X => match self.mem_read_u16(self.program_counter) {
                Ok(base) => Ok(base.wrapping_add(self.register_x as u16)),
                Err(e) => Err(e),
            },
            AddressingMode::Absolute_Y => match self.mem_read_u16(self.program_counter) {
                Ok(base) => Ok(base.wrapping_add(self.register_y as u16)),
                Err(e) => Err(e),
            },
            AddressingMode::Indirect_X => match self.mem_read(self.program_counter) {
                Ok(b) => Ok(self.zero_page_word(b.wrapping_add(self.register_x))),
                Err(e) => Err(e),
            },
            AddressingMode::Indirect_Y => match self.mem_read(self.program_counter) {
                Ok(b) => Ok(self.zero_page_word(b.wrapping_add(self.register_y))),
                Err(e) => Err(e),
            },
            AddressingMode::NoneAddressing => Err(CpuError::UnsupportedAddressingMode(*mode)),
        }
    }

    /// The word at zero-page address `pointer`, its high byte read from
    /// `pointer + 1` wrapped within the zero page.
    fn zero_page_word(&self, pointer: u8) -> (r: u16)
        ensures
            r == zero_page_pointer(self@.mem, pointer),
    {
        let lo = self.memory[pointer as usize];
        let hi = self.memory[pointer.wrapping_add(1) as usize];
        let r = ((hi as u16) << 8) | (lo as u16);
        assert(r == word(lo, hi)) by (bit_vector)
            requires
                r == ((hi as u16) << 8) | (lo as u16),
        ;
        r
    }

    /// Loads the accumulator from the operand that `mode` resolves to and
    /// recomputes Zero and Negative from it.
    fn lda(&mut self, mode: &AddressingMode) -> (r: Result<(), CpuError>)
        ensures
            match resolve(*mode, old(self)@.pc, old(self)@.x, old(self)@.y, old(self)@.mem) {
                Err(e) => r == Err::<(), CpuError>(e) && *final(self) == *old(self),
                Ok(addr) => match read_byte(old(self)@.mem, addr) {
                    Err(e) => r == Err::<(), CpuError>(e) && *final(self) == *old(self),
                    Ok(v) => r == Ok::<(), CpuError>(()) && final(self)@ == (Machine {
                        a: v,
                        status: flags_of(old(self)@.status, v),
                        ..old(self)@
                    }),
                },
            },
    {
        let addr = match self.get_operand_address(mode) {
            Ok(addr) => addr,
            Err(e) => return Err(e),
        };
        let value = match self.mem_read(addr) {
            Ok(v) => v,
            Err(e) => return Err(e),
        };
        self.register_a = value;
        self.update_zero_flag(self.register_a);
        self.update_negative_flag(self.register_a);
        Ok(())
    }

    /// Copies the accumulator into index X and recomputes Zero and Negative.
    fn tax(&mut self)
        ensures
            final(self)@ == (Machine { x: old(self)@.a, status: flags_of(old(self)@.status, old(self)@.a), ..old(self)@ }),
    {
        self.register_x = self.register_a;
        self.update_zero_flag(self.register_x);
        self.update_negative_flag(self.register_x);
    }

    /// Increments index X, wrapping at 256, and recomputes Zero and Negative.
    fn inx(&mut self)
        ensures
            final(self)@ == (Machine {
                x: ((old(self)@.x + 1) % 256) as u8,
                status: flags_of(old(self)@.status, ((old(self)@.x + 1) % 256) as u8),
                ..old(self)@
            }),
    {
        self.register_x = self.register_x.wrapping_add(1);
        self.update_zero_flag(self.register_x);
        self.update_negative_flag(self.register_x);
    }

    /// Fetches, decodes and executes one instruction. Returns `Ok(true)` to go
    /// on, `Ok(false)` after the terminate opcode.
    pub fn step(&mut self) -> (r: Result<bool, CpuError>)
        ensures
            (final(self)@, r) == step(old(self)@),
    {
        let opcode = match self.mem_read(self.program_counter) {
            Ok(op) => op,
            Err(e) => return Err(e),
        };
        self.program_counter = self.program_counter + 1;
        match decode(opcode) {
            Some(Instruction::Lda(mode)) => {
                match self.lda(&mode) {
                    Ok(()) => {},
                    Err(e) => return Err(e),
                }
                self.program_counter = self.program_counter + operand_len(Instruction::Lda(mode));
                Ok(true)
            },
            Some(Instruction::Tax) => {
                self.tax();
                Ok(true)
            },
            Some(Instruction::Inx) => {
                self.inx();
                Ok(true)
            },
            Some(Instruction::Brk) => Ok(false),
            None => Err(CpuError::UnimplementedInstruction(opcode)),
        }
    }

    /// Executes instructions from the program counter on until the terminate
    /// opcode or a fatal error.
    pub fn run(&mut self) -> (r: Result<(), CpuError>)
        ensures
            (final(self)@, r) == run_from(old(self)@),
    {
        loop
            invariant
                run_from(self@) == run_from(old(self)@),
            decreases 0x10000 - self@.pc,
        {
            proof {
                lemma_step_advances(self@);
            }
            match self.step() {
                Ok(true) => {},
                Ok(false) => return Ok(()),
                Err(e) => return Err(e),
            }
        }
    }

    /// Clears the accumulator, index X and status, and sets the program
    /// counter from the reset vector. Index Y and memory are kept.
    pub fn reset(&mut self)
        ensures
            final(self)@ == reset_state(old(self)@),
    {
        self.register_a = 0;
        self.register_x = 0;
        self.status = 0;
        // The vector's two bytes lie inside memory, so this read succeeds.
        match self.mem_read_u16(RESET_VECTOR) {
            Ok(pc) => self.program_counter = pc,
            Err(_) => {},
        }
    }

    /// Copies `program` into memory from `PROGRAM_ORIGIN` on and writes the
    /// origin as the reset vector. Registers are kept. An image longer than
    /// the space from the origin to the top of memory is refused unloaded.
    pub fn load(&mut self, program: Vec<u8>) -> (r: Result<(), CpuError>)
        ensures
            match load_image(old(self)@, program@) {
                Ok(m) => r == Ok::<(), CpuError>(()) && final(self)@ == m,
                Err(e) => r == Err::<(), CpuError>(e) && *final(self) == *old(self),
            },
    {
        if program.len() > MEM_SIZE - PROGRAM_ORIGIN as usize {
            return Err(CpuError::ProgramTooLarge(program.len()));
        }
        let origin = PROGRAM_ORIGIN as usize;
        let mut i: usize = 0;
        assert(self@.mem =~= Seq::new(
            MEM_SIZE as nat,
            |j: int|
                if PROGRAM_ORIGIN <= j < PROGRAM_ORIGIN + i {
                    program@[j - PROGRAM_ORIGIN]
                } else {
                    old(self)@.mem[j]
                },
        ));
        while i < program.len()
            invariant
                origin == PROGRAM_ORIGIN,
                i <= program.len() <= MEM_SIZE - PROGRAM_ORIGIN,
                self@ == (Machine {
                    mem: Seq::new(
                        MEM_SIZE as nat,
                        |j: int|
                            if PROGRAM_ORIGIN <= j < PROGRAM_ORIGIN + i {
                                program@[j - PROGRAM_ORIGIN]
                            } else {
                                old(self)@.mem[j]
                            },
                    ),
                    ..old(self)@
                }),
            decreases program.len() - i,
        {
            self.memory[origin + i] = program[i];
            i = i + 1;
            assert(self@.mem =~= Seq::new(
                MEM_SIZE as nat,
                |j: int|
                    if PROGRAM_ORIGIN <= j < PROGRAM_ORIGIN + i {
                        program@[j - PROGRAM_ORIGIN]
                    } else {
                        old(self)@.mem[j]
                    },
            ));
        }
        assert(self@.mem =~= placed(old(self)@.mem, program@));
        self.mem_write_u16(RESET_VECTOR, PROGRAM_ORIGIN)
    }

    /// Loads `program`, resets, and runs it to the terminate opcode or a
    /// fatal error.
    pub fn load_and_run(&mut self, program: Vec<u8>) -> (r: Result<(), CpuError>)
        ensures
            match load_image(old(self)@, program@) {
                Ok(m) => (final(self)@, r) == run_from(reset_state(m)),
                Err(e) => r == Err::<(), CpuError>(e) && *final(self) == *old(self),
            },
    {
        match self.load(program) {
            Ok(()) => {},
            Err(e) => return Err(e),
        }
        self.reset();
        self.run()
    }
}

impl Default for CPU {
    fn default() -> (r: Self)
        ensures
            r@ == (Machine { a: 0, x: 0, y: 0, status: 0, pc: 0, mem: Seq::new(MEM_SIZE as nat, |i: int| 0u8) }),
    {
        CPU::new()
    }
}

} // verus!
