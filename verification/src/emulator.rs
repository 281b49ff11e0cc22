//! The simulated machine: memory, register file and control loop.

pub mod bits;
pub mod cpu;
pub mod decode;
pub mod execute;
pub mod instruction;
pub mod memory;

use vstd::prelude::*;
use crate::emulator::bits::{lemma_width_bit, wrap32};
use crate::emulator::cpu::{Cpu, CpuState};
use crate::emulator::decode::{decode_16_spec, decode_32_spec};
use crate::emulator::execute::{branch_taken, execute_spec};
pub use crate::emulator::instruction::{Mnemonic, Type};
use crate::emulator::memory::{
    accessible, load16, load32, padded, store16, store32, store8, Fault, Memory, MEMORY_SIZE,
};

verus! {

/// Bit 5 of a fetched word: set when the word holds a 32-bit instruction.
pub const CHECK_32BIT_INST: u32 = 0x0000_0020;

/// The mathematical model of the machine: processor state, memory bytes and
/// the address at which `run` stops.
#[verifier::ext_equal]
pub struct MachineState {
    pub cpu: CpuState,
    pub mem: Seq<u8>,
    pub break_point: u32,
}

/// What the control loop finds at the program counter.
#[derive(Debug, Clone, Copy, PartialEq, Eq, Structural)]
pub struct Fetch {
    /// Address of the instruction.
    pub pc: u32,
    /// The raw instruction: all 32 bits fetched for a 32-bit instruction,
    /// the low 16 bits for a 16-bit instruction.
    pub word: u32,
    /// Number of bytes of the instruction: 2 or 4.
    pub width: u32,
    /// The decoded instruction.
    pub inst: Type,
}

/// Whether `run` came to its stop condition.
#[derive(Debug, Clone, Copy, PartialEq, Eq, Structural)]
pub enum RunState {
    /// The step budget ran out before the stop condition held.
    Running,
    /// The program counter reached the break point or left the memory.
    Stopped,
}

/// Whether a fetched word holds a 32-bit instruction: bit 5 is set.
pub open spec fn is_wide(word: u32) -> bool {
    (word / 32) % 2 == 1
}

/// What is fetched at program counter `pc` when the four bytes there read
/// as `word`.
pub open spec fn fetch_spec(pc: u32, word: u32) -> Fetch {
    if is_wide(word) {
        Fetch { pc, word, width: 4, inst: decode_32_spec(word) }
    } else {
        let low = (word % 0x1_0000) as u16;
        Fetch { pc, word: low as u32, width: 2, inst: decode_16_spec(low) }
    }
}

/// The state of a machine that was just made from `program`.
pub open spec fn initial_state(program: Seq<u8>) -> MachineState {
    MachineState {
        cpu: CpuState { pc: 0, regs: Seq::new(32, |i: int| 0u32) },
        mem: program,
        break_point: (program.len() % 0x1_0000_0000) as u32,
    }
}

/// One step of the machine: the state after it, and the fault that it
/// raised, if any.
///
/// The four bytes at the program counter are fetched; where they cannot
/// be, the step faults and changes nothing. The program counter advances
/// by the width of the instruction, and then the instruction executes.
/// Where the instruction faults, the program counter stays advanced and
/// nothing else has changed.
pub open spec fn step_spec(s: MachineState) -> (MachineState, Option<Fault>) {
    if accessible(s.mem, s.cpu.pc as int, 4) {
        let fetched = fetch_spec(s.cpu.pc, load32(s.mem, s.cpu.pc as int) as u32);
        let advanced = MachineState { cpu: s.cpu.jump((s.cpu.pc + fetched.width) as u32), ..s };
        match execute_spec(fetched.inst, advanced) {
            Ok(after) => (after, None),
            Err(fault) => (advanced, Some(fault)),
        }
    } else {
        (s, Some(Fault::OutOfBounds))
    }
}

/// A branch or jump offset counts from the instruction after the branch.
///
/// When the instruction at the program counter is a conditional branch,
/// the step does not fault and changes nothing but the program counter:
/// to the next instruction's address plus the offset, modulo 2^32, where
/// the branch is taken, and to the next instruction's address where it is
/// not.
pub proof fn lemma_branch_is_relative_to_next(s: MachineState)
    requires
        s.cpu.wf(),
        accessible(s.mem, s.cpu.pc as int, 4),
        fetch_spec(s.cpu.pc, load32(s.mem, s.cpu.pc as int) as u32).inst.mnemonic().is_branch(),
    ensures
        ({
            let inst = fetch_spec(s.cpu.pc, load32(s.mem, s.cpu.pc as int) as u32).inst;
            let (after, fault) = step_spec(s);
            &&& fault is None
            &&& inst matches Type::I32Format { mnemonic, rd, rs, imm }
            &&& after.cpu.pc == if branch_taken(mnemonic, s.cpu.read(rd), s.cpu.read(rs)) {
                wrap32(s.cpu.pc + 4 + imm)
            } else {
                (s.cpu.pc + 4) as u32
            }
            &&& after.cpu.regs == s.cpu.regs
            &&& after.mem == s.mem
            &&& after.break_point == s.break_point
        }),
{
}

/// The offset of a jump counts from the instruction after the jump, and
/// the address of that instruction is what the jump saves.
///
/// When the instruction at the program counter is `JAL`, the step does not
/// fault. It writes the next instruction's address to `rd` and sets the
/// program counter to that address plus the offset, modulo 2^32.
pub proof fn lemma_jump_is_relative_to_next(s: MachineState)
    requires
        s.cpu.wf(),
        accessible(s.mem, s.cpu.pc as int, 4),
        fetch_spec(s.cpu.pc, load32(s.mem, s.cpu.pc as int) as u32).inst.mnemonic() is Jal,
    ensures
        ({
            let inst = fetch_spec(s.cpu.pc, load32(s.mem, s.cpu.pc as int) as u32).inst;
            let (after, fault) = step_spec(s);
            &&& fault is None
            &&& inst matches Type::JFormat { mnemonic, rd, imm }
            &&& after.cpu.pc == wrap32(s.cpu.pc + 4 + imm)
            &&& after.cpu.regs == s.cpu.write(rd, (s.cpu.pc + 4) as u32).regs
            &&& after.mem == s.mem
            &&& after.break_point == s.break_point
        }),
{
}

/// The stop condition of `run`: the program counter is at the break point,
/// or at or beyond the end of the memory.
pub open spec fn at_stop(s: MachineState) -> bool {
    s.cpu.pc == s.break_point || s.cpu.pc >= MEMORY_SIZE
}

/// Running the machine for at most `budget` steps: the state it ends in,
/// and how it ended.
///
/// The stop condition is tested after each step, not before the first. A
/// fault ends the run at once.
pub open spec fn run_spec(s: MachineState, budget: nat) -> (MachineState, Result<RunState, Fault>)
    decreases budget,
{
    if budget == 0 {
        (s, Ok(RunState::Running))
    } else {
        let (after, fault) = step_spec(s);
        match fault {
            Some(fault) => (after, Err(fault)),
            None => if at_stop(after) {
                (after, Ok(RunState::Stopped))
            } else {
                run_spec(after, (budget - 1) as nat)
            },
        }
    }
}

/// A run of one step is a step followed by the test of the stop condition.
pub proof fn lemma_run_one_step(s: MachineState)
    ensures
        run_spec(s, 1).0 == step_spec(s).0,
        run_spec(s, 1).1 == match step_spec(s).1 {
            Some(fault) => Err::<RunState, Fault>(fault),
            None => if at_stop(step_spec(s).0) {
                Ok::<RunState, Fault>(RunState::Stopped)
            } else {
                Ok::<RunState, Fault>(RunState::Running)
            },
        },
{
    reveal_with_fuel(run_spec, 2);
}

/// A run can be taken up where its budget ran out: a run that is given
/// two budgets one after the other ends as a run that is given their sum
/// at once. A run that stopped or faulted within the first budget ends
/// there.
pub proof fn lemma_run_resumes(s: MachineState, first: nat, second: nat)
    ensures
        run_spec(s, first + second) == if run_spec(s, first).1 == Ok::<RunState, Fault>(
            RunState::Running,
        ) {
            run_spec(run_spec(s, first).0, second)
        } else {
            run_spec(s, first)
        },
    decreases first,
{
    if first > 0 {
        let (after, fault) = step_spec(s);
        if fault is None && !at_stop(after) {
            lemma_run_resumes(after, (first - 1) as nat, second);
            assert((first + second - 1) as nat == (first - 1) as nat + second);
        }
    }
}

/// One simulated core with its memory.
#[derive(Debug)]
pub struct Emulator {
    pub memory: Memory,
    pub cpu: Cpu,
    pub break_point: u32,
}

impl View for Emulator {
    type V = MachineState;

    open spec fn view(&self) -> MachineState {
        MachineState { cpu: self.cpu@, mem: self.memory@, break_point: self.break_point }
    }
}

impl Emulator {
    /// A machine whose memory holds `program`, with all registers and the
    /// program counter at zero and the break point at the end of the
    /// program.
    pub fn new(program: Vec<u8>) -> (emulator: Self)
        ensures
            emulator@ == initial_state(program@),
    {
        let break_point: u32 = ((program.len() as u64) % 0x1_0000_0000) as u32;
        Self { memory: Memory::new(program), cpu: Cpu::new(), break_point }
    }

    /// Pads the memory with zero bytes to its full size.
    pub fn init(&mut self)
        ensures
            final(self)@ == (MachineState { mem: padded(old(self)@.mem), ..old(self)@ }),
    {
        self.memory.init();
    }

    /// Fetches and decodes the instruction at the program counter, and
    /// changes nothing.
    pub fn fetch(&self) -> (r: Result<Fetch, Fault>)
        ensures
            match r {
                Ok(fetched) => accessible(self@.mem, self@.cpu.pc as int, 4) && fetched
                    == fetch_spec(self@.cpu.pc, load32(self@.mem, self@.cpu.pc as int) as u32)
                    && fetched.inst.wf(),
                Err(fault) => !accessible(self@.mem, self@.cpu.pc as int, 4) && fault
                    == Fault::OutOfBounds,
            },
    {
        let word_32: u32 = self.memory.read_data(self.cpu.pc)?;
        proof {
            lemma_width_bit(word_32);
        }
        if (CHECK_32BIT_INST & word_32) == 32 {
            Ok(Fetch { pc: self.cpu.pc, word: word_32, width: 4, inst: Self::decode_32(word_32) })
        } else {
            let word_16: u16 = (word_32 & 0x0000FFFF) as u16;
            Ok(
                Fetch {
                    pc: self.cpu.pc,
                    word: word_16 as u32,
                    width: 2,
                    inst: Self::decode_16(word_16),
                },
            )
        }
    }

    /// Executes the instruction at the program counter.
    pub fn step(&mut self) -> (r: Result<(), Fault>)
        ensures
            final(self)@ == step_spec(old(self)@).0,
            match step_spec(old(self)@).1 {
                None => r is Ok,
                Some(fault) => r is Err && r->Err_0 == fault,
            },
    {
        let fetched = self.fetch()?;
        self.cpu.pc += fetched.width;
        self.execute(&fetched.inst)
    }

    /// Whether the stop condition of `run` holds.
    pub fn stopped(&self) -> (b: bool)
        ensures
            b == at_stop(self@),
    {
        self.cpu.pc == self.break_point || self.cpu.pc >= MEMORY_SIZE
    }

    /// Steps until the program counter equals the break point or is at or
    /// beyond `MEMORY_SIZE`, for at most `max_steps` steps. The condition is
    /// tested after each step, and a fault ends the run.
    pub fn run(&mut self, max_steps: u64) -> (r: Result<RunState, Fault>)
        ensures
            final(self)@ == run_spec(old(self)@, max_steps as nat).0,
            r == run_spec(old(self)@, max_steps as nat).1,
    {
        let mut steps: u64 = 0;
        while steps < max_steps
            invariant
                steps <= max_steps,
                run_spec(old(self)@, max_steps as nat) == run_spec(
                    self@,
                    (max_steps - steps) as nat,
                ),
            decreases max_steps - steps,
        {
            match self.step() {
                Err(fault) => {
                    return Err(fault);
                },
                Ok(_) => {},
            }
            if self.stopped() {
                return Ok(RunState::Stopped);
            }
            steps += 1;
        }
        Ok(RunState::Running)
    }

    /// Reads register `index`; register 0 reads as zero.
    pub fn get_register(&self, index: u8) -> (value: u32)
        requires
            index < 32,
        ensures
            value == self@.cpu.read(index),
    {
        self.cpu.get_reg(index)
    }

    /// Writes `value` to register `index`; a write to register 0 is
    /// dropped.
    pub fn set_register(&mut self, index: u8, value: u32)
        requires
            index < 32,
        ensures
            final(self)@ == (MachineState {
                cpu: old(self)@.cpu.write(index, value),
                ..old(self)@
            }),
    {
        self.cpu.set_reg(index, value);
    }

    /// Reads the byte at `address`.
    pub fn read_memory_8(&self, address: u32) -> (r: Result<u8, Fault>)
        ensures
            match r {
                Ok(value) => accessible(self@.mem, address as int, 1) && value
                    == self@.mem[address as int],
                Err(fault) => !accessible(self@.mem, address as int, 1) && fault
                    == Fault::OutOfBounds,
            },
    {
        self.memory.read_data_8bit(address)
    }

    /// Reads the little-endian 16-bit value at `address`.
    pub fn read_memory_16(&self, address: u32) -> (r: Result<u16, Fault>)
        ensures
            match r {
                Ok(value) => accessible(self@.mem, address as int, 2) && value == load16(
                    self@.mem,
                    address as int,
                ),
                Err(fault) => !accessible(self@.mem, address as int, 2) && fault
                    == Fault::OutOfBounds,
            },
    {
        self.memory.read_data_16bit(address)
    }

    /// Reads the little-endian 32-bit value at `address`.
    pub fn read_memory_32(&self, address: u32) -> (r: Result<u32, Fault>)
        ensures
            match r {
                Ok(value) => accessible(self@.mem, address as int, 4) && value == load32(
                    self@.mem,
                    address as int,
                ),
                Err(fault) => !accessible(self@.mem, address as int, 4) && fault
                    == Fault::OutOfBounds,
            },
    {
        self.memory.read_data(address)
    }

    /// Writes `value` to the byte at `address`. On a fault nothing is
    /// written.
    pub fn write_memory_8(&mut self, address: u32, value: u8) -> (r: Result<(), Fault>)
        ensures
            match r {
                Ok(_) => accessible(old(self)@.mem, address as int, 1) && final(self)@
                    == (MachineState {
                    mem: store8(old(self)@.mem, address as int, value),
                    ..old(self)@
                }),
                Err(fault) => !accessible(old(self)@.mem, address as int, 1) && fault
                    == Fault::OutOfBounds && final(self)@ == old(self)@,
            },
    {
        self.memory.write_data_8bit(address, value)
    }

    /// Writes `value` at `address`, least significant byte first. On a
    /// fault nothing is written.
    pub fn write_memory_16(&mut self, address: u32, value: u16) -> (r: Result<(), Fault>)
        ensures
            match r {
                Ok(_) => accessible(old(self)@.mem, address as int, 2) && final(self)@
                    == (MachineState {
                    mem: store16(old(self)@.mem, address as int, value),
                    ..old(self)@
                }),
                Err(fault) => !accessible(old(self)@.mem, address as int, 2) && fault
                    == Fault::OutOfBounds && final(self)@ == old(self)@,
            },
    {
        self.memory.write_data_16bit(address, value)
    }

    /// Writes `value` at `address`, least significant byte first. On a
    /// fault nothing is written.
    pub fn write_memory_32(&mut self, address: u32, value: u32) -> (r: Result<(), Fault>)
        ensures
            match r {
                Ok(_) => accessible(old(self)@.mem, address as int, 4) && final(self)@
                    == (MachineState {
                    mem: store32(old(self)@.mem, address as int, value),
                    ..old(self)@
                }),
                Err(fault) => !accessible(old(self)@.mem, address as int, 4) && fault
                    == Fault::OutOfBounds && final(self)@ == old(self)@,
            },
    {
        self.memory.write_data(address, value)
    }
}

} // verus!
