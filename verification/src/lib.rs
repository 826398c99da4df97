//! A small interpreter for a byte-encoded instruction stream, modeled on a
//! classic 8-bit microprocessor: a register file with condition flags, and a
//! fetch-decode-execute loop over four opcodes.

pub mod cpu;
