//! The processor core: register file, condition flags, and the
//! fetch-decode-execute loop.

use vstd::prelude::*;

verus! {

/// Bit 1 of the status byte: set when the most recently written register
/// value was zero.
pub const ZERO_MASK: u8 = 0x02;

/// Mask that clears the Zero flag and keeps every other status bit.
pub const ZERO_CLEAR: u8 = 0xFD;

/// Bit 7 of the status byte: set when bit 7 of the most recently written
/// register value was set.
pub const NEGATIVE_MASK: u8 = 0x80;

/// Mask that clears the Negative flag and keeps every other status bit.
pub const NEGATIVE_CLEAR: u8 = 0x7F;

/// The reserved status bits: every bit except Zero and Negative. No operation
/// ever assigns them.
pub const RESERVED_MASK: u8 = 0x7D;

/// The two condition flags defined in the status byte. All other status bits
/// are reserved and are never assigned.
#[derive(Clone, Copy, Debug, PartialEq, Eq, Structural)]
pub enum Flag {
    Negative,
    Zero,
}

/// The two general-purpose registers.
#[derive(Clone, Copy, Debug, PartialEq, Eq, Structural)]
pub enum Register {
    A,
    X,
}

/// A decoded instruction. Decoding consumes one program byte, or two for
/// `LDA`, whose operand follows the opcode byte.
///
/// Opcode table: 0x00 = `BRK`, 0xA9 = `LDA`, 0xAA = `TAX`, 0xE8 = `INX`;
/// every other byte decodes to `Unknown` and is a fatal condition when
/// executed.
#[derive(Clone, Copy, Debug, PartialEq, Eq, Structural)]
pub enum Opcode {
    /// 0x00: halt, normal completion of a run.
    BRK,
    /// 0xA9: load the immediate operand into the accumulator.
    LDA(u8),
    /// 0xAA: copy the accumulator into the index register.
    TAX,
    /// 0xE8: increment the index register (see `inc_register` for the
    /// deliberate accumulator-read quirk).
    INX,
    /// Any other byte: no instruction is assigned to it.
    Unknown(u8),
}

/// Why a run stopped without reaching a halt instruction.
#[derive(Clone, Copy, Debug, PartialEq, Eq, Structural)]
pub enum RunError {
    /// A byte with no opcode assigned to it was about to be executed; the
    /// offending byte is carried along.
    UnimplementedOpcode(u8),
    /// A fetch was attempted at an offset at or past the end of the program;
    /// the offending offset is carried along.
    OutOfBoundsFetch(u16),
}

/// The processor state: two registers, the status byte, and the program
/// counter. The caller constructs it zeroed, runs programs against it, and
/// inspects the fields directly afterwards.
#[derive(Clone, Copy, Debug, PartialEq, Eq, Structural)]
pub struct CPU {
    pub register_a: u8,
    pub register_x: u8,
    pub status: u8,
    pub program_counter: u16,
}

/// The value of one condition flag in a processor state.
pub open spec fn spec_get_flag(cpu: CPU, flag: Flag) -> bool {
    match flag {
        Flag::Negative => cpu.status & NEGATIVE_MASK != 0,
        Flag::Zero => cpu.status & ZERO_MASK != 0,
    }
}

/// The status byte after one flag is set or cleared; every other bit is kept.
pub open spec fn spec_set_flag(status: u8, flag: Flag, value: bool) -> u8 {
    match flag {
        Flag::Negative => if value {
            status | NEGATIVE_MASK
        } else {
            status & NEGATIVE_CLEAR
        },
        Flag::Zero => if value {
            status | ZERO_MASK
        } else {
            status & ZERO_CLEAR
        },
    }
}

/// The status byte after a register write: Zero and Negative are recomputed
/// from the written value, the reserved bits are kept.
pub open spec fn spec_flags_for(status: u8, value: u8) -> u8 {
    spec_set_flag(
        spec_set_flag(status, Flag::Zero, value == 0),
        Flag::Negative,
        value & NEGATIVE_MASK != 0,
    )
}

/// The processor state after a register write: the named register holds the
/// value, the flags are recomputed from it, everything else is kept.
pub open spec fn spec_write_register(cpu: CPU, register: Register, value: u8) -> CPU {
    match register {
        Register::A => CPU {
            register_a: value,
            register_x: cpu.register_x,
            status: spec_flags_for(cpu.status, value),
            program_counter: cpu.program_counter,
        },
        Register::X => CPU {
            register_a: cpu.register_a,
            register_x: value,
            status: spec_flags_for(cpu.status, value),
            program_counter: cpu.program_counter,
        },
    }
}

/// A value plus one with 8-bit wraparound; no carry flag exists to record the
/// wrap.
pub open spec fn spec_wrapping_inc(value: u8) -> u8 {
    if value == 0xFF {
        0
    } else {
        (value + 1) as u8
    }
}

/// The processor state after an increment: the target register receives the
/// accumulator's value plus one, wrapped to 8 bits. That the accumulator is
/// read whatever the target is, is the deliberate quirk documented on
/// `CPU::inc_register`.
pub open spec fn spec_inc_register(cpu: CPU, register: Register) -> CPU {
    spec_write_register(cpu, register, spec_wrapping_inc(cpu.register_a))
}

/// The same registers and status, with the program counter set to `pc`.
pub open spec fn spec_with_pc(cpu: CPU, pc: int) -> CPU {
    CPU {
        register_a: cpu.register_a,
        register_x: cpu.register_x,
        status: cpu.status,
        program_counter: pc as u16,
    }
}

/// One fetch-decode step at offset `pc` of the program: the decoded
/// instruction (or the fetch error), and the offset of the next byte to
/// fetch. A fetch at or past the end of the program fails without advancing;
/// a missing `LDA` operand fails after the opcode byte was consumed.
pub open spec fn spec_fetch_decode(program: Seq<u8>, pc: int) -> (Result<Opcode, RunError>, int) {
    if pc < 0 || pc >= program.len() {
        (Err(RunError::OutOfBoundsFetch(pc as u16)), pc)
    } else {
        let op = program[pc];
        if op == 0xA9 {
            if pc + 1 >= program.len() {
                (Err(RunError::OutOfBoundsFetch((pc + 1) as u16)), pc + 1)
            } else {
                (Ok(Opcode::LDA(program[pc + 1])), pc + 2)
            }
        } else if op == 0x00 {
            (Ok(Opcode::BRK), pc + 1)
        } else if op == 0xAA {
            (Ok(Opcode::TAX), pc + 1)
        } else if op == 0xE8 {
            (Ok(Opcode::INX), pc + 1)
        } else {
            (Ok(Opcode::Unknown(op)), pc + 1)
        }
    }
}

/// The rest of a run, starting at offset `pc`: the final processor state and
/// whether the run halted normally (`Ok`) or stopped on a fatal condition
/// (`Err`). Each iteration fetches and decodes one instruction, advances the
/// program counter past it, applies its effect, and stops on `BRK`, on an
/// unknown opcode, or on a failed fetch.
pub open spec fn spec_run_from(cpu: CPU, program: Seq<u8>, pc: int) -> (CPU, Result<
    (),
    RunError,
>)
    decreases program.len() - pc,
{
    let step = spec_fetch_decode(program, pc);
    let fetched = spec_with_pc(cpu, step.1);
    match step.0 {
        Err(e) => (fetched, Err(e)),
        Ok(op) => match op {
            Opcode::BRK => (fetched, Ok(())),
            Opcode::Unknown(value) => (fetched, Err(RunError::UnimplementedOpcode(value))),
            Opcode::LDA(param) => spec_run_from(
                spec_write_register(fetched, Register::A, param),
                program,
                step.1,
            ),
            Opcode::TAX => spec_run_from(
                spec_write_register(fetched, Register::X, fetched.register_a),
                program,
                step.1,
            ),
            Opcode::INX => spec_run_from(spec_inc_register(fetched, Register::X), program, step.1),
        },
    }
}

/// A whole run of a program: the program counter is reset to zero first, the
/// registers and status carry over from the given state.
pub open spec fn spec_run(cpu: CPU, program: Seq<u8>) -> (CPU, Result<(), RunError>) {
    spec_run_from(spec_with_pc(cpu, 0), program, 0)
}

impl CPU {
    /// A fresh processor: all registers, the status byte and the program
    /// counter zeroed.
    pub fn new() -> (cpu: CPU)
        ensures
            cpu.register_a == 0,
            cpu.register_x == 0,
            cpu.status == 0,
            cpu.program_counter == 0,
    {
        CPU { register_a: 0, register_x: 0, status: 0, program_counter: 0 }
    }

    /// Read one condition flag from the status byte. Pure: no field changes.
    pub fn get_flag(&self, flag: Flag) -> (value: bool)
        ensures
            value == spec_get_flag(*self, flag),
    {
        match flag {
            Flag::Zero => self.status & ZERO_MASK != 0,
            Flag::Negative => self.status & NEGATIVE_MASK != 0,
        }
    }

    /// Set or clear exactly one flag bit in the status byte; all other bits,
    /// the registers and the program counter are untouched.
    pub fn set_flag(&mut self, flag: Flag, value: bool)
        ensures
            final(self).status == spec_set_flag(old(self).status, flag, value),
            final(self).register_a == old(self).register_a,
            final(self).register_x == old(self).register_x,
            final(self).program_counter == old(self).program_counter,
    {
        match flag {
            Flag::Negative => {
                if value {
                    self.status = self.status | NEGATIVE_MASK;
                } else {
                    self.status = self.status & NEGATIVE_CLEAR;
                }
            },
            Flag::Zero => {
                if value {
                    self.status = self.status | ZERO_MASK;
                } else {
                    self.status = self.status & ZERO_CLEAR;
                }
            },
        }
    }

    /// Store `value` into the named register, then recompute both flags from
    /// it: Zero iff the value is zero, Negative iff bit 7 of the value is
    /// set. The other register, the reserved status bits and the program
    /// counter are untouched. Cannot fail.
    pub fn set_register(&mut self, register: Register, value: u8)
        ensures
            *final(self) == spec_write_register(*old(self), register, value),
    {
        match register {
            Register::A => {
                self.register_a = value;
            },
            Register::X => {
                self.register_x = value;
            },
        }
        self.set_flag(Flag::Zero, value == 0);
        self.set_flag(Flag::Negative, value & NEGATIVE_MASK != 0);
    }

    /// Add one to the *accumulator's* current value, with 8-bit wraparound,
    /// and store the result into the target register (flags update as in
    /// `set_register`). Reading the accumulator even when the target is the
    /// index register is a deliberate quirk of this processor, kept as
    /// documented behavior: incrementing the index register stores
    /// accumulator + 1, not index + 1.
    pub fn inc_register(&mut self, register: Register)
        ensures
            *final(self) == spec_inc_register(*old(self), register),
    {
        let incremented: u8 = if self.register_a == 0xFF {
            0
        } else {
            self.register_a + 1
        };
        self.set_register(register, incremented);
    }

    /// Fetch and decode the instruction at the current program counter,
    /// advancing the counter past the consumed bytes (one, or two for `LDA`).
    /// Fails with `OutOfBoundsFetch` when a needed byte lies at or past the
    /// end of the program; the counter then stops at the failing offset.
    pub fn next_opcode(&mut self, program: &[u8]) -> (result: Result<Opcode, RunError>)
        requires
            program@.len() <= 0xFFFF,
        ensures
            final(self).register_a == old(self).register_a,
            final(self).register_x == old(self).register_x,
            final(self).status == old(self).status,
            ({
                let step = spec_fetch_decode(program@, old(self).program_counter as int);
                result == step.0 && final(self).program_counter as int == step.1
            }),
    {
        let pc: usize = self.program_counter as usize;
        if pc >= program.len() {
            return Err(RunError::OutOfBoundsFetch(self.program_counter));
        }
        let opcode: u8 = program[pc];
        self.program_counter = self.program_counter + 1;
        match opcode {
            0x00 => Ok(Opcode::BRK),
            0xA9 => {
                let operand_pc: usize = self.program_counter as usize;
                if operand_pc >= program.len() {
                    Err(RunError::OutOfBoundsFetch(self.program_counter))
                } else {
                    let operand: u8 = program[operand_pc];
                    self.program_counter = self.program_counter + 1;
                    Ok(Opcode::LDA(operand))
                }
            },
            0xAA => Ok(Opcode::TAX),
            0xE8 => Ok(Opcode::INX),
            value => Ok(Opcode::Unknown(value)),
        }
    }

    /// Run a program to completion: reset the program counter to zero, then
    /// fetch, decode and execute instructions until a halt (`Ok`), an
    /// unknown opcode, or a failed fetch (`Err`, carrying the fault). The
    /// registers and status carry over from the current state into the run.
    /// The final state and the result are exactly those of `spec_run`.
    pub fn interpret(&mut self, program: &[u8]) -> (result: Result<(), RunError>)
        requires
            program@.len() <= 0xFFFF,
        ensures
            ({
                let outcome = spec_run(*old(self), program@);
                *final(self) == outcome.0 && result == outcome.1
            }),
    {
        let ghost start: CPU = *self;
        self.program_counter = 0;
        loop
            invariant
                start == *old(self),
                program@.len() <= 0xFFFF,
                self.program_counter as int <= program@.len(),
                spec_run_from(*self, program@, self.program_counter as int) == spec_run(
                    start,
                    program@,
                ),
            decreases program@.len() - self.program_counter as int,
        {
            let step = self.next_opcode(program);
            match step {
                Ok(Opcode::LDA(param)) => {
                    self.set_register(Register::A, param);
                },
                Ok(Opcode::TAX) => {
                    let accumulator: u8 = self.register_a;
                    self.set_register(Register::X, accumulator);
                },
                Ok(Opcode::INX) => {
                    self.inc_register(Register::X);
                },
                Ok(Opcode::BRK) => {
                    return Ok(());
                },
                Ok(Opcode::Unknown(value)) => {
                    return Err(RunError::UnimplementedOpcode(value));
                },
                Err(fault) => {
                    return Err(fault);
                },
            }
        }
    }
}

proof fn lemma_flag_bits(status: u8, zero: bool, negative: bool)
    by (bit_vector)
    ensures
        ({
            let after_zero: u8 = if zero {
                status | ZERO_MASK
            } else {
                status & ZERO_CLEAR
            };
            let after_both: u8 = if negative {
                after_zero | NEGATIVE_MASK
            } else {
                after_zero & NEGATIVE_CLEAR
            };
            &&& (after_both & ZERO_MASK != 0) == zero
            &&& (after_both & NEGATIVE_MASK != 0) == negative
            &&& after_both & RESERVED_MASK == status & RESERVED_MASK
        }),
{
}

/// Law: writing a value into a register sets the Zero flag exactly when the
/// value is zero and the Negative flag exactly when bit 7 of the value is
/// set; the value lands in the named register, and the other register, the
/// reserved status bits and the program counter are unchanged.
pub proof fn lemma_write_register_flags(cpu: CPU, register: Register, value: u8)
    ensures
        ({
            let written = spec_write_register(cpu, register, value);
            &&& spec_get_flag(written, Flag::Zero) == (value == 0)
            &&& spec_get_flag(written, Flag::Negative) == (value & NEGATIVE_MASK != 0)
            &&& (register == Register::A ==> written.register_a == value && written.register_x
                == cpu.register_x)
            &&& (register == Register::X ==> written.register_x == value && written.register_a
                == cpu.register_a)
            &&& written.status & RESERVED_MASK == cpu.status & RESERVED_MASK
            &&& written.program_counter == cpu.program_counter
        }),
{
    lemma_flag_bits(cpu.status, value == 0, value & NEGATIVE_MASK != 0);
}

/// Law: the outcome of a run is a function of the program and of the
/// registers and status alone; the prior program counter does not influence
/// it, and no state outside the processor exists to carry anything over. In
/// particular, two runs of one program, each from a freshly zeroed processor,
/// end in identical registers, flags and program counter.
pub proof fn lemma_run_no_hidden_state(first: CPU, second: CPU, program: Seq<u8>)
    requires
        first.register_a == second.register_a,
        first.register_x == second.register_x,
        first.status == second.status,
    ensures
        spec_run(first, program) == spec_run(second, program),
{
    assert(spec_with_pc(first, 0) == spec_with_pc(second, 0));
}

/// Law: a program whose first byte is none of the four assigned opcodes
/// stops at once with an unimplemented-opcode fault carrying that byte, and
/// no register or flag has been written.
pub proof fn lemma_unknown_first_opcode_faults(cpu: CPU, program: Seq<u8>)
    requires
        0 < program.len(),
        program[0] != 0x00,
        program[0] != 0xA9,
        program[0] != 0xAA,
        program[0] != 0xE8,
    ensures
        ({
            let outcome = spec_run(cpu, program);
            &&& outcome.1 == Err::<(), RunError>(RunError::UnimplementedOpcode(program[0]))
            &&& outcome.0.register_a == cpu.register_a
            &&& outcome.0.register_x == cpu.register_x
            &&& outcome.0.status == cpu.status
            &&& outcome.0.program_counter == 1
        }),
{
}

} // verus!
