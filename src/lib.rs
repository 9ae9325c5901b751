//! An instruction-cycle engine for a classic 8-bit accumulator processor:
//! flat memory, a small register file, addressing-mode resolution and a
//! fetch-decode-execute loop, each step stated against a mathematical model.

pub mod cpu;
pub mod laws;
pub mod model;
pub mod opcodes;
